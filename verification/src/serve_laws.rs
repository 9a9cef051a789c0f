//! What holds of every run of a server, from its start through whatever its driver answers.
use crate::notify::{NotifyAction, NotifyStage};
use crate::picked::{lemma_picked_push, picked};
use crate::serve::{
    serve_next, serve_start, serve_wrapping, ServeAction, ServeEvent, ServeProgress, ServeStage,
};
use vstd::prelude::*;

verus! {

/// The answers that a driver gave, in order.
pub type ServeTrace<S, L, W, Out, E> = Seq<ServeEvent<S, L, W, Out, E>>;

/// An action of the run of a server.
pub type ServeStep<S, L, W> = ServeAction<Seq<u8>, Seq<u8>, S, L, W>;

/// Where the run of a server stands after the answers in `trace`.
pub open spec fn serve_run<S, L, W, Out, E>(
    path: Seq<u8>,
    liveness_path: Option<Seq<u8>>,
    trace: ServeTrace<S, L, W, Out, E>,
) -> ServeProgress<Seq<u8>, Seq<u8>, S, L, W, Out, E>
    decreases trace.len(),
{
    if trace.len() == 0 {
        serve_start(path, liveness_path)
    } else {
        match serve_run(path, liveness_path, trace.drop_last()) {
            ServeProgress::Ongoing(stage, _) => serve_next(stage, trace.last()),
            finished => finished,
        }
    }
}

/// Whether each answer in `trace` was waited for when it was given.
pub open spec fn serve_answered<S, L, W, Out, E>(
    path: Seq<u8>,
    liveness_path: Option<Seq<u8>>,
    trace: ServeTrace<S, L, W, Out, E>,
) -> bool
    decreases trace.len(),
{
    trace.len() > 0 ==> {
        &&& serve_answered(path, liveness_path, trace.drop_last())
        &&& serve_run(path, liveness_path, trace.drop_last()) matches ServeProgress::Ongoing(
            stage,
            _,
        )
        &&& stage.expects(trace.last())
    }
}

/// The actions that the run of a server has asked for by the time of the answers in `trace`.
pub open spec fn serve_actions<S, L, W, Out, E>(
    path: Seq<u8>,
    liveness_path: Option<Seq<u8>>,
    trace: ServeTrace<S, L, W, Out, E>,
) -> Seq<ServeStep<S, L, W>>
    decreases trace.len(),
{
    let before = if trace.len() == 0 {
        Seq::empty()
    } else {
        serve_actions(path, liveness_path, trace.drop_last())
    };
    match serve_run(path, liveness_path, trace) {
        ServeProgress::Ongoing(_, action) => before.push(action),
        ServeProgress::Finished(_) => before,
    }
}

/// The path that an action binds a listener to, as a function value.
pub open spec fn binds<S, L, W>() -> spec_fn(ServeStep<S, L, W>) -> Option<Seq<u8>> {
    |action: ServeStep<S, L, W>|
        match action {
            ServeAction::Bind { path } => Some(path),
            _ => None,
        }
}

/// The path that an action cleans up, as a function value.
pub open spec fn removes<S, L, W>() -> spec_fn(ServeStep<S, L, W>) -> Option<Seq<u8>> {
    |action: ServeStep<S, L, W>|
        match action {
            ServeAction::Remove { cleanable } => Some(cleanable),
            _ => None,
        }
}

/// The path of the liveness socket that an action pings, as a function value.
pub open spec fn pings<S, L, W>() -> spec_fn(ServeStep<S, L, W>) -> Option<Seq<u8>> {
    |action: ServeStep<S, L, W>|
        match action {
            ServeAction::Notify(NotifyAction::Connect { path }) => Some(path),
            _ => None,
        }
}

/// The listener that an action has wrapped, as a function value.
pub open spec fn wraps<S, L, W>() -> spec_fn(ServeStep<S, L, W>) -> Option<L> {
    |action: ServeStep<S, L, W>|
        match action {
            ServeAction::Wrap { listener } => Some(listener),
            _ => None,
        }
}

/// The wrapped listener that an action runs the server on, as a function value.
pub open spec fn runs<S, L, W>() -> spec_fn(ServeStep<S, L, W>) -> Option<W> {
    |action: ServeStep<S, L, W>|
        match action {
            ServeAction::Run { wrapper } => Some(wrapper),
            _ => None,
        }
}

/// An action that is no part of the notification, as a function value.
pub open spec fn other_actions<S, L, W>() -> spec_fn(ServeStep<S, L, W>) -> Option<
    ServeStep<S, L, W>,
> {
    |action: ServeStep<S, L, W>|
        if action is Notify {
            None
        } else {
            Some(action)
        }
}

/// An answer that is no part of the notification, as a function value.
pub open spec fn other_answers<S, L, W, Out, E>() -> spec_fn(
    ServeEvent<S, L, W, Out, E>,
) -> Option<ServeEvent<S, L, W, Out, E>> {
    |event: ServeEvent<S, L, W, Out, E>|
        if event is Notify {
            None
        } else {
            Some(event)
        }
}

/// The wrapped listener that an answer hands back, as a function value.
pub open spec fn wrapped<S, L, W, Out, E>() -> spec_fn(ServeEvent<S, L, W, Out, E>) -> Option<W> {
    |event: ServeEvent<S, L, W, Out, E>|
        match event {
            ServeEvent::Wrapped(Ok(wrapper)) => Some(wrapper),
            _ => None,
        }
}

/// The listener that an answer says was bound, as a function value.
pub open spec fn listens<S, L, W, Out, E>() -> spec_fn(ServeEvent<S, L, W, Out, E>) -> Option<L> {
    |event: ServeEvent<S, L, W, Out, E>|
        match event {
            ServeEvent::Bound(Ok(listener)) => Some(listener),
            _ => None,
        }
}

/// What an answer decides the outcome of the run to be, as a function value: a listener that could
/// not be bound or wrapped, and the end of the server. A liveness socket that could not be notified
/// decides nothing.
pub open spec fn decides<S, L, W, Out, E>() -> spec_fn(ServeEvent<S, L, W, Out, E>) -> Option<
    Result<Out, E>,
> {
    |event: ServeEvent<S, L, W, Out, E>|
        match event {
            ServeEvent::Bound(Err(error)) => Some(Err(error)),
            ServeEvent::Wrapped(Err(error)) => Some(Err(error)),
            ServeEvent::Ran(outcome) => Some(outcome),
            _ => None,
        }
}

/// The paths of liveness sockets to be pinged in a run.
pub open spec fn expected_pings(liveness_path: Option<Seq<u8>>) -> Seq<Seq<u8>> {
    match liveness_path {
        Some(liveness_path) => seq![liveness_path],
        None => Seq::empty(),
    }
}

/// The path that is still to be cleaned up where a run stands, if there is one.
pub open spec fn serve_held<S, L, W, Out, E>(
    progress: ServeProgress<Seq<u8>, Seq<u8>, S, L, W, Out, E>,
) -> Seq<Seq<u8>> {
    match progress {
        ServeProgress::Ongoing(stage, _) => match stage.held() {
            Some(path) => seq![path],
            None => Seq::empty(),
        },
        ServeProgress::Finished(_) => Seq::empty(),
    }
}

/// An upper bound of the answers that a run still waits for.
pub open spec fn serve_remaining<S, L, W, Out, E>(
    progress: ServeProgress<Seq<u8>, Seq<u8>, S, L, W, Out, E>,
) -> nat {
    match progress {
        ServeProgress::Finished(_) => 0,
        ServeProgress::Ongoing(stage, _) => match stage {
            ServeStage::Binding { .. } => 6,
            ServeStage::Notifying { notify: NotifyStage::Connecting, .. } => 5,
            ServeStage::Notifying { notify: NotifyStage::ShuttingDown, .. } => 4,
            ServeStage::Wrapping { .. } => 3,
            ServeStage::Running { .. } => 2,
            ServeStage::Removing { .. } => 1,
        },
    }
}

/// What is true of the run of a server, wherever it stands.
pub open spec fn serve_consistent<S, L, W, Out, E>(
    path: Seq<u8>,
    liveness_path: Option<Seq<u8>>,
    trace: ServeTrace<S, L, W, Out, E>,
) -> bool {
    let actions = serve_actions(path, liveness_path, trace);
    let removed = picked(actions, removes());
    let pinged = picked(actions, pings());
    let listening = picked(trace, listens());
    let decided = picked(trace, decides());
    let wrapping = picked(actions, wraps());
    let running = picked(actions, runs());
    let wrappers = picked(trace, wrapped());
    let unused = wrapping == Seq::<L>::empty() && running == Seq::<W>::empty() && wrappers
        == Seq::<W>::empty();
    let untouched = removed == Seq::<Seq<u8>>::empty() && decided == Seq::<
        Result<Out, E>,
    >::empty();
    &&& picked(actions, binds()) == seq![path]
    &&& listening.len() <= 1
    &&& pinged.len() > 0 ==> listening.len() == 1
    &&& match serve_run(path, liveness_path, trace) {
        ServeProgress::Ongoing(stage, _) => match stage {
            ServeStage::Binding { path: at, liveness_path: to } => {
                &&& at == path && to == liveness_path && untouched && unused
                &&& pinged == Seq::<Seq<u8>>::empty() && listening == Seq::<L>::empty()
            },
            ServeStage::Notifying { path: at, listener, .. } => {
                &&& at == path && untouched && unused
                &&& listening == seq![listener] && pinged == expected_pings(liveness_path)
            },
            ServeStage::Wrapping { path: at } => {
                &&& at == path && untouched
                &&& wrapping == listening && running == Seq::<W>::empty() && wrappers == running
                &&& listening.len() == 1 && pinged == expected_pings(liveness_path)
            },
            ServeStage::Running { path: at } => {
                &&& at == path && untouched
                &&& wrapping == listening && running == wrappers && running.len() == 1
                &&& listening.len() == 1 && pinged == expected_pings(liveness_path)
            },
            ServeStage::Removing { outcome } => {
                &&& removed == seq![path] && decided == seq![outcome]
                &&& wrapping == listening && running == wrappers && running.len() <= wrapping.len()
                &&& listening.len() == 1 ==> pinged == expected_pings(liveness_path)
            },
        },
        ServeProgress::Finished(outcome) => {
            &&& removed == seq![path] && decided == seq![outcome]
            &&& wrapping == listening && running == wrappers && running.len() <= wrapping.len()
            &&& listening.len() == 1 ==> pinged == expected_pings(liveness_path)
        },
    }
}

#[verifier::spinoff_prover]
proof fn lemma_serve_consistent<S, L, W, Out, E>(
    path: Seq<u8>,
    liveness_path: Option<Seq<u8>>,
    trace: ServeTrace<S, L, W, Out, E>,
)
    requires
        serve_answered(path, liveness_path, trace),
    ensures
        serve_consistent(path, liveness_path, trace),
        trace.len() + serve_remaining(serve_run(path, liveness_path, trace)) <= 6,
    decreases trace.len(),
{
    let before = if trace.len() == 0 {
        Seq::empty()
    } else {
        serve_actions(path, liveness_path, trace.drop_last())
    };
    if let ServeProgress::Ongoing(_, action) = serve_run(path, liveness_path, trace) {
        lemma_picked_push(before, action, binds());
        lemma_picked_push(before, action, removes());
        lemma_picked_push(before, action, pings());
        lemma_picked_push(before, action, wraps());
        lemma_picked_push(before, action, runs());
    }
    if trace.len() > 0 {
        lemma_serve_consistent(path, liveness_path, trace.drop_last());
    }
}

/// The service's socket is bound once, and it is all that is ever cleaned up: once, not before the
/// outcome was decided, so not while the server runs, and always before a run has come to its
/// outcome. Until then the run holds the path, to be handed back where the run is given up. So the
/// socket is cleaned up exactly once, whether the run is carried to its outcome or not.
pub proof fn law_serve_cleans_up<S, L, W, Out, E>(
    path: Seq<u8>,
    liveness_path: Option<Seq<u8>>,
    trace: ServeTrace<S, L, W, Out, E>,
)
    requires
        serve_answered(path, liveness_path, trace),
    ensures
        ({
            let actions = serve_actions(path, liveness_path, trace);
            let removed = picked(actions, removes());
            &&& picked(actions, binds()) == seq![path]
            &&& removed + serve_held(serve_run(path, liveness_path, trace)) == seq![path]
            &&& serve_run(path, liveness_path, trace) is Finished ==> removed == seq![path]
            &&& picked(trace, decides()).len() == 0 ==> removed.len() == 0
            &&& serve_run(path, liveness_path, trace) matches ServeProgress::Ongoing(
                ServeStage::Running { .. },
                _,
            ) ==> removed.len() == 0
        }),
{
    lemma_serve_consistent(path, liveness_path, trace);
}

/// A run comes to its outcome after six answers at most, the end of the server among them.
pub proof fn law_serve_ends<S, L, W, Out, E>(
    path: Seq<u8>,
    liveness_path: Option<Seq<u8>>,
    trace: ServeTrace<S, L, W, Out, E>,
)
    requires
        serve_answered(path, liveness_path, trace),
    ensures
        trace.len() <= 6,
        trace.len() == 6 ==> serve_run(path, liveness_path, trace) is Finished,
{
    lemma_serve_consistent(path, liveness_path, trace);
}

/// A ping means that a socket exists to connect to: at any time, a liveness socket has been pinged
/// only if the service's listener was bound before. And by the time that the server runs, the
/// liveness socket has been pinged if there is one.
pub proof fn law_ping_follows_bind<S, L, W, Out, E>(
    path: Seq<u8>,
    liveness_path: Option<Seq<u8>>,
    trace: ServeTrace<S, L, W, Out, E>,
)
    requires
        serve_answered(path, liveness_path, trace),
    ensures
        ({
            let pinged = picked(serve_actions(path, liveness_path, trace), pings());
            &&& pinged.len() == 0 || pinged == expected_pings(liveness_path) && picked(
                trace,
                listens(),
            ).len() == 1
            &&& serve_run(path, liveness_path, trace) matches ServeProgress::Ongoing(
                ServeStage::Running { .. },
                _,
            ) ==> pinged == expected_pings(liveness_path)
        }),
{
    lemma_serve_consistent(path, liveness_path, trace);
}

/// The outcome of a run is what the server gave back, or the failure to bind or to wrap its
/// listener; a failure to notify the liveness socket has no effect on it.
pub proof fn law_serve_outcome<S, L, W, Out, E>(
    path: Seq<u8>,
    liveness_path: Option<Seq<u8>>,
    trace: ServeTrace<S, L, W, Out, E>,
)
    requires
        serve_answered(path, liveness_path, trace),
    ensures
        serve_run(path, liveness_path, trace) matches ServeProgress::Finished(outcome) ==> picked(
            trace,
            decides(),
        ) == seq![outcome],
{
    lemma_serve_consistent(path, liveness_path, trace);
}

/// At any time, nothing has been wrapped but the listener that was bound, once, and the server has
/// been run on nothing but what that gave, once. By the time of the outcome, a listener that was
/// bound has been wrapped, and the server has been run if that succeeded, whatever came of the
/// notification.
pub proof fn law_server_runs_on_its_listener<S, L, W, Out, E>(
    path: Seq<u8>,
    liveness_path: Option<Seq<u8>>,
    trace: ServeTrace<S, L, W, Out, E>,
)
    requires
        serve_answered(path, liveness_path, trace),
    ensures
        ({
            let actions = serve_actions(path, liveness_path, trace);
            let wrapping = picked(actions, wraps());
            let running = picked(actions, runs());
            let listening = picked(trace, listens());
            let wrappers = picked(trace, wrapped());
            &&& wrapping.len() == 0 || wrapping.len() == 1 && wrapping == listening
            &&& running.len() == 0 || running.len() == 1 && running == wrappers && wrapping.len()
                == 1
            &&& serve_run(path, liveness_path, trace) is Finished ==> wrapping == listening
                && running == wrappers
        }),
{
    lemma_serve_consistent(path, liveness_path, trace);
}

/// A run that goes on to wrap its listener, in place of a run that notifies.
pub open spec fn notified<S, L, W, Out, E>(
    progress: ServeProgress<Seq<u8>, Seq<u8>, S, L, W, Out, E>,
) -> ServeProgress<Seq<u8>, Seq<u8>, S, L, W, Out, E> {
    match progress {
        ServeProgress::Ongoing(ServeStage::Binding { path, .. }, action) => ServeProgress::Ongoing(
            ServeStage::Binding { path, liveness_path: None },
            action,
        ),
        ServeProgress::Ongoing(ServeStage::Notifying { path, listener, .. }, _) => {
            serve_wrapping(path, listener)
        },
        progress => progress,
    }
}

/// But for the notification, a run with a liveness socket is the run without one, however the
/// notification comes out: without the answers to it, the same answers are waited for, lead to the
/// same place, and are answers to the same actions.
pub proof fn law_notification_changes_nothing<S, L, W, Out, E>(
    path: Seq<u8>,
    liveness_path: Option<Seq<u8>>,
    trace: ServeTrace<S, L, W, Out, E>,
)
    requires
        serve_answered(path, liveness_path, trace),
    ensures
        ({
            let progress = serve_run(path, liveness_path, trace);
            let others = picked(trace, other_answers());
            let actions = picked(serve_actions(path, liveness_path, trace), other_actions());
            &&& serve_answered(path, None, others)
            &&& serve_run(path, None, others) == notified(progress)
            &&& serve_actions(path, None, others) == match progress {
                ServeProgress::Ongoing(ServeStage::Notifying { listener, .. }, _) => actions.push(
                    ServeAction::Wrap { listener },
                ),
                _ => actions,
            }
        }),
    decreases trace.len(),
{
    let before = if trace.len() == 0 {
        Seq::empty()
    } else {
        serve_actions(path, liveness_path, trace.drop_last())
    };
    if let ServeProgress::Ongoing(_, action) = serve_run(path, liveness_path, trace) {
        lemma_picked_push(before, action, other_actions());
    }
    if trace.len() > 0 {
        law_notification_changes_nothing(path, liveness_path, trace.drop_last());
        lemma_serve_consistent(path, liveness_path, trace.drop_last());
        let others = picked(trace.drop_last(), other_answers());
        assert(others.push(trace.last()).drop_last() =~= others);
    }
}

} // verus!
