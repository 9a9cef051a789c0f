//! What holds of every connection, from its start through whatever its driver answers.
use crate::attempt::{AttemptAction, AttemptEvent, AttemptStage};
use crate::check::{CheckAction, CheckEvent, CheckStage};
use crate::cleanup::{CleanupAction, CleanupEvent, CleanupStage};
use crate::connect::{
    connect_next, connect_start, ConnectAction, ConnectEvent, ConnectProgress, ConnectRequest,
    ConnectStage,
};
use crate::create::{CreateAction, CreateEvent, CreateStage};
use crate::error::ServiceError;
use crate::picked::{lemma_picked_push, picked};
use crate::sockpath::ephemeral_path;
use crate::timeout::LivenessTimeout;
use vstd::prelude::*;

verus! {

/// The answers that a driver gave, in order, each with the number that was drawn with it. The
/// number counts only where a path for the ephemeral socket is chosen.
pub type ConnectTrace<S, A, L, K, Conn, E> = Seq<(ConnectEvent<Seq<u8>, S, A, L, K, Conn, E>, u64)>;

/// An action of a connection.
pub type ConnectStep<'a, C, S, L, K> = ConnectAction<'a, Seq<u8>, Seq<u8>, C, S, L, K>;

/// Where a connection stands, or its outcome.
pub type Outcome<'a, C, S, L, K, Conn, E> = ConnectProgress<
    'a,
    Seq<u8>,
    Seq<u8>,
    C,
    S,
    L,
    K,
    Conn,
    E,
>;

/// Where a connection stands after the answers in `trace`.
pub open spec fn connect_run<'a, C, S, A, L, K, Conn, E>(
    request: ConnectRequest<'a, Seq<u8>, C>,
    trace: ConnectTrace<S, A, L, K, Conn, E>,
) -> Outcome<'a, C, S, L, K, Conn, E>
    decreases trace.len(),
{
    if trace.len() == 0 {
        connect_start(request)
    } else {
        match connect_run(request, trace.drop_last()) {
            ConnectProgress::Ongoing(connecting, _) => connect_next(
                connecting,
                trace.last().0,
                trace.last().1,
            ),
            finished => finished,
        }
    }
}

/// Whether each answer in `trace` was waited for when it was given.
pub open spec fn connect_answered<'a, C, S, A, L, K, Conn, E>(
    request: ConnectRequest<'a, Seq<u8>, C>,
    trace: ConnectTrace<S, A, L, K, Conn, E>,
) -> bool
    decreases trace.len(),
{
    trace.len() > 0 ==> {
        &&& connect_answered(request, trace.drop_last())
        &&& connect_run(request, trace.drop_last()) matches ConnectProgress::Ongoing(connecting, _)
        &&& connecting.expects(trace.last().0)
    }
}

/// The actions that a connection has asked for by the time of the answers in `trace`, in order.
pub open spec fn connect_actions<'a, C, S, A, L, K, Conn, E>(
    request: ConnectRequest<'a, Seq<u8>, C>,
    trace: ConnectTrace<S, A, L, K, Conn, E>,
) -> Seq<ConnectStep<'a, C, S, L, K>>
    decreases trace.len(),
{
    let before = if trace.len() == 0 {
        Seq::empty()
    } else {
        connect_actions(request, trace.drop_last())
    };
    match connect_run(request, trace) {
        ConnectProgress::Ongoing(_, action) => before.push(action),
        ConnectProgress::Finished(_) => before,
    }
}

/// The path that an action binds a listener to.
pub open spec fn bound_by<'a, C, S, L, K>(
    action: ConnectStep<'a, C, S, L, K>,
) -> Option<Seq<u8>> {
    match action {
        ConnectAction::Create(CreateAction::Bind { path }) => Some(path),
        _ => None,
    }
}

/// The path that an action cleans up.
pub open spec fn removed_by<'a, C, S, L, K>(
    action: ConnectStep<'a, C, S, L, K>,
) -> Option<Seq<u8>> {
    match action {
        ConnectAction::Create(CreateAction::Remove { cleanable }) => Some(cleanable),
        ConnectAction::Cleanup(CleanupAction::Remove { cleanable }) => Some(cleanable),
        ConnectAction::Check(CheckAction::Cleanup(CleanupAction::Remove { cleanable })) => Some(
            cleanable,
        ),
        _ => None,
    }
}

/// The listener that an action closes.
pub open spec fn closed_by<'a, C, S, L, K>(action: ConnectStep<'a, C, S, L, K>) -> Option<L> {
    match action {
        ConnectAction::Cleanup(CleanupAction::Close { listener }) => Some(listener),
        ConnectAction::Check(CheckAction::Cleanup(CleanupAction::Close { listener })) => Some(
            listener,
        ),
        _ => None,
    }
}

/// What an action starts the service with: the executor prefix, and the liveness path.
pub open spec fn spawned_by<'a, C, S, L, K>(
    action: ConnectStep<'a, C, S, L, K>,
) -> Option<(Option<&'a [C]>, Seq<u8>)> {
    match action {
        ConnectAction::Spawn { executor_prefix, liveness_path } => Some(
            (executor_prefix, liveness_path),
        ),
        _ => None,
    }
}

/// The path that an action connects a stream to.
pub open spec fn connected_by<'a, C, S, L, K>(
    action: ConnectStep<'a, C, S, L, K>,
) -> Option<Seq<u8>> {
    match action {
        ConnectAction::Attempt(AttemptAction::Connect { path }) => Some(path),
        _ => None,
    }
}

/// [`bound_by`] as a function value.
pub open spec fn bound_action<'a, C, S, L, K>() -> spec_fn(
    ConnectStep<'a, C, S, L, K>,
) -> Option<Seq<u8>> {
    |action: ConnectStep<'a, C, S, L, K>| bound_by(action)
}

/// [`removed_by`] as a function value.
pub open spec fn removed_action<'a, C, S, L, K>() -> spec_fn(
    ConnectStep<'a, C, S, L, K>,
) -> Option<Seq<u8>> {
    |action: ConnectStep<'a, C, S, L, K>| removed_by(action)
}

/// [`closed_by`] as a function value.
pub open spec fn closed_action<'a, C, S, L, K>() -> spec_fn(
    ConnectStep<'a, C, S, L, K>,
) -> Option<L> {
    |action: ConnectStep<'a, C, S, L, K>| closed_by(action)
}

/// [`spawned_by`] as a function value.
pub open spec fn spawned_action<'a, C, S, L, K>() -> spec_fn(
    ConnectStep<'a, C, S, L, K>,
) -> Option<(Option<&'a [C]>, Seq<u8>)> {
    |action: ConnectStep<'a, C, S, L, K>| spawned_by(action)
}

/// [`connected_by`] as a function value.
pub open spec fn connected_action<'a, C, S, L, K>() -> spec_fn(
    ConnectStep<'a, C, S, L, K>,
) -> Option<Seq<u8>> {
    |action: ConnectStep<'a, C, S, L, K>| connected_by(action)
}

/// The paths that listeners were bound to by the time of `trace`.
pub open spec fn bound_paths<'a, C, S, A, L, K, Conn, E>(
    request: ConnectRequest<'a, Seq<u8>, C>,
    trace: ConnectTrace<S, A, L, K, Conn, E>,
) -> Seq<Seq<u8>> {
    picked(connect_actions(request, trace), bound_action())
}

/// The paths that were cleaned up by the time of `trace`.
pub open spec fn removed_paths<'a, C, S, A, L, K, Conn, E>(
    request: ConnectRequest<'a, Seq<u8>, C>,
    trace: ConnectTrace<S, A, L, K, Conn, E>,
) -> Seq<Seq<u8>> {
    picked(connect_actions(request, trace), removed_action())
}

/// The listeners that were closed by the time of `trace`.
pub open spec fn closed_listeners<'a, C, S, A, L, K, Conn, E>(
    request: ConnectRequest<'a, Seq<u8>, C>,
    trace: ConnectTrace<S, A, L, K, Conn, E>,
) -> Seq<L> {
    picked(connect_actions(request, trace), closed_action())
}

/// The listeners that were bound in `trace`.
pub open spec fn bound_listeners<S, A, L, K, Conn, E>(
    trace: ConnectTrace<S, A, L, K, Conn, E>,
) -> Seq<L> {
    picked(
        trace,
        |answer: (ConnectEvent<Seq<u8>, S, A, L, K, Conn, E>, u64)|
            match answer.0 {
                ConnectEvent::Create(CreateEvent::Bound(Ok(listener))) => Some(listener),
                _ => None,
            },
    )
}

/// What the service was started with, each time that it was, by the time of `trace`.
pub open spec fn spawns<'a, C, S, A, L, K, Conn, E>(
    request: ConnectRequest<'a, Seq<u8>, C>,
    trace: ConnectTrace<S, A, L, K, Conn, E>,
) -> Seq<(Option<&'a [C]>, Seq<u8>)> {
    picked(connect_actions(request, trace), spawned_action())
}

/// The paths that streams were connected to by the time of `trace`.
pub open spec fn connected_paths<'a, C, S, A, L, K, Conn, E>(
    request: ConnectRequest<'a, Seq<u8>, C>,
    trace: ConnectTrace<S, A, L, K, Conn, E>,
) -> Seq<Seq<u8>> {
    picked(connect_actions(request, trace), connected_action())
}

/// The failure that an answer reports.
pub open spec fn failure<S, A, L, K, Conn, E>(
    event: ConnectEvent<Seq<u8>, S, A, L, K, Conn, E>,
    timeout: LivenessTimeout,
) -> Option<ServiceError<E>> {
    match event {
        ConnectEvent::Attempt(AttemptEvent::Connected(Err(error))) => Some(ServiceError::Io(error)),
        ConnectEvent::Attempt(AttemptEvent::Wrapped(Err(error))) => Some(ServiceError::Io(error)),
        ConnectEvent::Create(CreateEvent::Bound(Err(error))) => Some(ServiceError::Io(error)),
        ConnectEvent::Spawned(Err(error)) => Some(ServiceError::Io(error)),
        ConnectEvent::Check(CheckEvent::Accepted { outcome: None, .. }) => Some(
            ServiceError::TimedOut(timeout),
        ),
        ConnectEvent::Check(CheckEvent::Accepted { outcome: Some(Err(error)), .. }) => Some(
            ServiceError::Io(error),
        ),
        ConnectEvent::Check(CheckEvent::ShutDown(Err(error))) => Some(ServiceError::Io(error)),
        ConnectEvent::HandedOver(Err(error)) => Some(ServiceError::Io(error)),
        _ => None,
    }
}

/// The failures that were reported in `trace`, in order.
pub open spec fn failures<S, A, L, K, Conn, E>(
    trace: ConnectTrace<S, A, L, K, Conn, E>,
    timeout: LivenessTimeout,
) -> Seq<ServiceError<E>> {
    picked(
        trace,
        |answer: (ConnectEvent<Seq<u8>, S, A, L, K, Conn, E>, u64)| failure(answer.0, timeout),
    )
}

/// Whether an answer says that the ping of a live service has come in and was dealt with.
pub open spec fn is_ping<S, A, L, K, Conn, E>(
    event: ConnectEvent<Seq<u8>, S, A, L, K, Conn, E>,
) -> bool {
    event matches ConnectEvent::Check(CheckEvent::ShutDown(Ok(())))
}

/// The pings in `trace`.
pub open spec fn pings<S, A, L, K, Conn, E>(
    trace: ConnectTrace<S, A, L, K, Conn, E>,
) -> Seq<ConnectEvent<Seq<u8>, S, A, L, K, Conn, E>> {
    picked(
        trace,
        |answer: (ConnectEvent<Seq<u8>, S, A, L, K, Conn, E>, u64)|
            if is_ping(answer.0) {
                Some(answer.0)
            } else {
                None
            },
    )
}

/// Whether an answer says that a service that was started stayed silent for too long.
pub open spec fn is_silence<S, A, L, K, Conn, E>(
    event: ConnectEvent<Seq<u8>, S, A, L, K, Conn, E>,
) -> bool {
    event matches ConnectEvent::Check(CheckEvent::Accepted { outcome: None, .. })
}

/// The answers in `trace` that say that a service stayed silent for too long.
pub open spec fn silences<S, A, L, K, Conn, E>(
    trace: ConnectTrace<S, A, L, K, Conn, E>,
) -> Seq<ConnectEvent<Seq<u8>, S, A, L, K, Conn, E>> {
    picked(
        trace,
        |answer: (ConnectEvent<Seq<u8>, S, A, L, K, Conn, E>, u64)|
            if is_silence(answer.0) {
                Some(answer.0)
            } else {
                None
            },
    )
}

/// The paths that the directories for temporary files in `trace` give with the numbers drawn.
pub open spec fn ephemeral_paths<S, A, L, K, Conn, E>(
    trace: ConnectTrace<S, A, L, K, Conn, E>,
) -> Seq<Seq<u8>> {
    picked(
        trace,
        |answer: (ConnectEvent<Seq<u8>, S, A, L, K, Conn, E>, u64)|
            match answer.0 {
                ConnectEvent::Create(CreateEvent::TempDir(dir)) => Some(
                    ephemeral_path(dir, answer.1),
                ),
                _ => None,
            },
    )
}

/// An upper bound of the answers that a connection still waits for.
pub open spec fn remaining<'a, C, S, L, K, Conn, E>(
    progress: Outcome<'a, C, S, L, K, Conn, E>,
) -> nat {
    match progress {
        ConnectProgress::Finished(_) => 0,
        ConnectProgress::Ongoing(connecting, _) => match connecting.stage {
            ConnectStage::First(AttemptStage::Connecting) => 11,
            ConnectStage::First(AttemptStage::Wrapping) => 1,
            ConnectStage::Creating(CreateStage::Locating) => 10,
            ConnectStage::Creating(CreateStage::Binding { .. }) => 9,
            ConnectStage::Creating(CreateStage::Removing { .. }) => 1,
            ConnectStage::Spawning { .. } => 8,
            ConnectStage::Abandoning(CleanupStage::Removing { .. }) => 2,
            ConnectStage::Abandoning(CleanupStage::Closing { .. }) => 1,
            ConnectStage::Checking { check: CheckStage::Accepting { .. }, .. } => 7,
            ConnectStage::Checking { check: CheckStage::ShuttingDown { .. }, .. } => 6,
            ConnectStage::Checking { check: CheckStage::Closing { .. }, .. } => 5,
            ConnectStage::Checking { check: CheckStage::Removing, .. } => 4,
            ConnectStage::Checking {
                check: CheckStage::Failing(CleanupStage::Removing { .. }),
                ..
            } => 2,
            ConnectStage::Checking {
                check: CheckStage::Failing(CleanupStage::Closing { .. }),
                ..
            } => 1,
            ConnectStage::HandingOver => 3,
            ConnectStage::Second(AttemptStage::Connecting) => 2,
            ConnectStage::Second(AttemptStage::Wrapping) => 1,
        },
    }
}

/// The error that a disposal ends with.
pub open spec fn cleanup_error<L, X>(stage: CleanupStage<L, X>) -> X {
    match stage {
        CleanupStage::Removing { error, .. } => error,
        CleanupStage::Closing { error } => error,
    }
}

/// How many pings there have been by the time of `stage`.
pub open spec fn pings_by<L, K, E>(stage: ConnectStage<Seq<u8>, L, K, E>) -> nat {
    match stage {
        ConnectStage::Checking { check: CheckStage::Closing { .. }, .. } => 1,
        ConnectStage::Checking { check: CheckStage::Removing, .. } => 1,
        ConnectStage::HandingOver | ConnectStage::Second(_) => 1,
        _ => 0,
    }
}

/// How many listeners have been bound by the time of `stage`.
pub open spec fn bound_listeners_by<L, K, E>(stage: ConnectStage<Seq<u8>, L, K, E>) -> nat {
    match stage {
        ConnectStage::First(_) | ConnectStage::Creating(_) => 0,
        _ => 1,
    }
}

/// How many listeners have been closed by the time of `stage`.
pub open spec fn closed_listeners_by<L, K, E>(stage: ConnectStage<Seq<u8>, L, K, E>) -> nat {
    match stage {
        ConnectStage::Abandoning(CleanupStage::Closing { .. }) => 1,
        ConnectStage::Checking { check: CheckStage::Closing { .. }, .. } => 1,
        ConnectStage::Checking { check: CheckStage::Removing, .. } => 1,
        ConnectStage::Checking {
            check: CheckStage::Failing(CleanupStage::Closing { .. }),
            ..
        } => 1,
        ConnectStage::HandingOver | ConnectStage::Second(_) => 1,
        _ => 0,
    }
}

/// How often the service has been found silent for too long by the time of `stage`.
pub open spec fn silences_by<L, K, E>(stage: ConnectStage<Seq<u8>, L, K, E>) -> nat {
    match stage {
        ConnectStage::Checking { check: CheckStage::Failing(cleanup), .. } => {
            if cleanup_error(cleanup) is TimedOut {
                1
            } else {
                0
            }
        },
        _ => 0,
    }
}

/// What is true of a connection that stands at `stage`.
pub open spec fn stage_consistent<'a, C, S, A, L, K, Conn, E>(
    request: ConnectRequest<'a, Seq<u8>, C>,
    trace: ConnectTrace<S, A, L, K, Conn, E>,
    stage: ConnectStage<Seq<u8>, L, K, E>,
) -> bool {
    let bound = bound_paths(request, trace);
    let removed = removed_paths(request, trace);
    let spawned = spawns(request, trace);
    let connected = connected_paths(request, trace);
    let failed = failures(trace, request.liveness_timeout);
    let nothing = Seq::<Seq<u8>>::empty();
    let started = bound.len() == 1 && spawned == seq![(request.executor_prefix, bound[0])];
    &&& match stage {
        ConnectStage::Second(_) => connected == seq![request.socket_path, request.socket_path],
        _ => connected == seq![request.socket_path],
    }
    &&& match stage {
        ConnectStage::First(_) => bound == nothing && removed == nothing && spawned.len() == 0,
        ConnectStage::Creating(CreateStage::Locating) => {
            bound == nothing && removed == nothing && spawned.len() == 0
        },
        ConnectStage::Creating(CreateStage::Binding { path }) => {
            bound == seq![path] && removed == nothing && spawned.len() == 0
        },
        ConnectStage::Creating(CreateStage::Removing { error }) => {
            &&& bound.len() == 1 && removed == bound && spawned.len() == 0
            &&& failed.len() > 0 && failed.last() == ServiceError::Io(error)
        },
        ConnectStage::Spawning { path, .. } => {
            bound == seq![path] && removed == nothing && started
        },
        ConnectStage::Abandoning(cleanup) => {
            &&& removed == bound && started && cleanup_error(cleanup) is Io
            &&& failed.len() > 0 && failed.last() == cleanup_error(cleanup)
        },
        ConnectStage::Checking { check, .. } => {
            &&& started
            &&& match check {
                CheckStage::Accepting { path, timeout } => bound == seq![path] && removed == nothing
                    && timeout == request.liveness_timeout,
                CheckStage::ShuttingDown { path, .. } => bound == seq![path] && removed == nothing,
                CheckStage::Closing { path } => bound == seq![path] && removed == nothing,
                CheckStage::Removing => removed == bound,
                CheckStage::Failing(cleanup) => {
                    &&& removed == bound
                    &&& failed.len() > 0 && failed.last() == cleanup_error(cleanup)
                },
            }
        },
        ConnectStage::HandingOver => removed == bound && started,
        ConnectStage::Second(_) => removed == bound && started,
    }
    &&& pings(trace).len() == pings_by(stage)
    &&& silences(trace).len() == silences_by(stage)
    &&& bound_listeners(trace).len() == bound_listeners_by(stage)
    &&& closed_listeners(request, trace).len() == closed_listeners_by(stage)
    &&& bound == ephemeral_paths(trace)
}

/// What is true of a connection that has come to its outcome.
pub open spec fn outcome_consistent<'a, C, S, A, L, K, Conn, E>(
    request: ConnectRequest<'a, Seq<u8>, C>,
    trace: ConnectTrace<S, A, L, K, Conn, E>,
    outcome: Result<Conn, ServiceError<E>>,
) -> bool {
    let bound = bound_paths(request, trace);
    let spawned = spawns(request, trace);
    let connected = connected_paths(request, trace);
    let failed = failures(trace, request.liveness_timeout);
    &&& removed_paths(request, trace) == bound
    &&& bound.len() <= 1
    &&& spawned.len() == 0 || bound.len() == 1 && spawned == seq![
        (request.executor_prefix, bound[0]),
    ]
    &&& connected == seq![request.socket_path] || connected == seq![
        request.socket_path,
        request.socket_path,
    ] && spawned.len() == 1 && pings(trace).len() == 1
    &&& match outcome {
        Ok(connection) => trace.len() > 0 && trace.last().0 == ConnectEvent::<
            Seq<u8>,
            S,
            A,
            L,
            K,
            Conn,
            E,
        >::Attempt(AttemptEvent::Wrapped(Ok(connection))),
        Err(error) => failed.len() > 0 && failed.last() == error,
    }
    &&& (outcome matches Err(ServiceError::TimedOut(_))) == (silences(trace).len() > 0)
    &&& bound_listeners(trace).len() <= 1
    &&& closed_listeners(request, trace).len() == bound_listeners(trace).len()
    &&& bound == ephemeral_paths(trace)
}

/// What is true of a connection, wherever it stands.
pub open spec fn connect_consistent<'a, C, S, A, L, K, Conn, E>(
    request: ConnectRequest<'a, Seq<u8>, C>,
    trace: ConnectTrace<S, A, L, K, Conn, E>,
) -> bool {
    match connect_run(request, trace) {
        ConnectProgress::Ongoing(connecting, _) => {
            &&& connecting.request == request
            &&& stage_consistent(request, trace, connecting.stage)
        },
        ConnectProgress::Finished(outcome) => outcome_consistent(request, trace, outcome),
    }
}

/// [`connect_consistent`] holds at any time.
#[verifier::spinoff_prover]
pub proof fn lemma_connect_consistent<'a, C, S, A, L, K, Conn, E>(
    request: ConnectRequest<'a, Seq<u8>, C>,
    trace: ConnectTrace<S, A, L, K, Conn, E>,
)
    requires
        connect_answered(request, trace),
    ensures
        connect_consistent(request, trace),
        trace.len() + remaining(connect_run(request, trace)) <= 11,
    decreases trace.len(),
{
    let before = if trace.len() == 0 {
        Seq::empty()
    } else {
        connect_actions(request, trace.drop_last())
    };
    if let ConnectProgress::Ongoing(_, action) = connect_run(request, trace) {
        lemma_picked_push(before, action, bound_action());
        lemma_picked_push(before, action, removed_action());
        lemma_picked_push(before, action, closed_action());
        lemma_picked_push(before, action, spawned_action());
        lemma_picked_push(before, action, connected_action());
    }
    if trace.len() > 0 {
        lemma_connect_consistent(request, trace.drop_last());
        let earlier = connected_paths(request, trace.drop_last());
        if earlier == seq![request.socket_path] {
            assert(earlier.push(request.socket_path) =~= seq![
                request.socket_path,
                request.socket_path,
            ]);
        }
        if let ConnectProgress::Ongoing(now, _) = connect_run(request, trace) {
            assert(now.stage is Spawning ==> spawns(request, trace) =~= seq![
                (request.executor_prefix, bound_paths(request, trace)[0]),
            ]);
        }
    }
}

/// Whenever a connection has come to its outcome, every path that it had a socket bound to has been
/// cleaned up, once, and as many listeners have been closed as were bound.
pub proof fn law_connect_cleans_up<'a, C, S, A, L, K, Conn, E>(
    request: ConnectRequest<'a, Seq<u8>, C>,
    trace: ConnectTrace<S, A, L, K, Conn, E>,
)
    requires
        connect_answered(request, trace),
        connect_run(request, trace) is Finished,
    ensures
        removed_paths(request, trace) == bound_paths(request, trace),
        bound_paths(request, trace).len() <= 1,
        closed_listeners(request, trace).len() == bound_listeners(trace).len(),
        bound_listeners(trace).len() <= 1,
{
    lemma_connect_consistent(request, trace);
}

/// A connection comes to its outcome after eleven answers at most.
pub proof fn law_connect_ends<'a, C, S, A, L, K, Conn, E>(
    request: ConnectRequest<'a, Seq<u8>, C>,
    trace: ConnectTrace<S, A, L, K, Conn, E>,
)
    requires
        connect_answered(request, trace),
    ensures
        trace.len() <= 11,
        trace.len() == 11 ==> connect_run(request, trace) is Finished,
{
    lemma_connect_consistent(request, trace);
}

/// At any time, the service has been started at most once, behind the executor prefix that was
/// asked for and with the path of the one ephemeral socket, which lies in the directory for
/// temporary files.
pub proof fn law_service_is_started_at_most_once<'a, C, S, A, L, K, Conn, E>(
    request: ConnectRequest<'a, Seq<u8>, C>,
    trace: ConnectTrace<S, A, L, K, Conn, E>,
)
    requires
        connect_answered(request, trace),
    ensures
        bound_paths(request, trace) == ephemeral_paths(trace),
        bound_paths(request, trace).len() <= 1,
        spawns(request, trace).len() == 0 || bound_paths(request, trace).len() == 1 && spawns(
            request,
            trace,
        ) == seq![(request.executor_prefix, bound_paths(request, trace)[0])],
{
    lemma_connect_consistent(request, trace);
}

/// At any time, all that was connected to is the service's socket: once, or a second time after
/// the service was started and has reported that it is live.
pub proof fn law_second_attempt_follows_ping<'a, C, S, A, L, K, Conn, E>(
    request: ConnectRequest<'a, Seq<u8>, C>,
    trace: ConnectTrace<S, A, L, K, Conn, E>,
)
    requires
        connect_answered(request, trace),
    ensures
        connected_paths(request, trace) == seq![request.socket_path] || connected_paths(
            request,
            trace,
        ) == seq![request.socket_path, request.socket_path] && spawns(request, trace).len() == 1
            && pings(trace).len() == 1,
{
    lemma_connect_consistent(request, trace);
}

/// The outcome of a connection is the client connection that was made of a stream, if that is what
/// came last; else it is the last failure that was reported, and that is a timeout exactly if the
/// service was started and stayed silent.
pub proof fn law_connect_outcome<'a, C, S, A, L, K, Conn, E>(
    request: ConnectRequest<'a, Seq<u8>, C>,
    trace: ConnectTrace<S, A, L, K, Conn, E>,
)
    requires
        connect_answered(request, trace),
    ensures
        connect_run(request, trace) matches ConnectProgress::Finished(outcome) ==> {
            &&& outcome matches Ok(connection) ==> trace.len() > 0 && trace.last().0
                == ConnectEvent::<Seq<u8>, S, A, L, K, Conn, E>::Attempt(
                AttemptEvent::Wrapped(Ok(connection)),
            )
            &&& outcome matches Err(error) ==> failures(trace, request.liveness_timeout).len() > 0
                && failures(trace, request.liveness_timeout).last() == error
            &&& (outcome matches Err(ServiceError::TimedOut(_))) == (silences(trace).len() > 0)
        },
        trace.len() > 0 ==> (trace.last().0 matches ConnectEvent::Attempt(
            AttemptEvent::Wrapped(Ok(connection)),
        ) ==> connect_run(request, trace) == ConnectProgress::<
            'a,
            Seq<u8>,
            Seq<u8>,
            C,
            S,
            L,
            K,
            Conn,
            E,
        >::Finished(Ok(connection))),
{
    lemma_connect_consistent(request, trace);
}

/// Where the first attempt succeeds, its connection is the outcome, and connecting and wrapping is
/// all that was done.
pub proof fn law_running_service_is_not_started<'a, C, S, A, L, K, Conn, E>(
    request: ConnectRequest<'a, Seq<u8>, C>,
    stream: S,
    connection: Conn,
    numbers: (u64, u64),
)
    ensures
        ({
            let trace: ConnectTrace<S, A, L, K, Conn, E> = seq![
                (ConnectEvent::Attempt(AttemptEvent::Connected(Ok(stream))), numbers.0),
                (ConnectEvent::Attempt(AttemptEvent::Wrapped(Ok(connection))), numbers.1),
            ];
            let outcome: Outcome<'a, C, S, L, K, Conn, E> = ConnectProgress::Finished(
                Ok(connection),
            );
            let actions: Seq<ConnectStep<'a, C, S, L, K>> = seq![
                ConnectAction::Attempt(AttemptAction::Connect { path: request.socket_path }),
                ConnectAction::Attempt(AttemptAction::Wrap { stream }),
            ];
            &&& connect_answered(request, trace)
            &&& connect_run(request, trace) == outcome
            &&& connect_actions(request, trace) == actions
        }),
{
    let none: ConnectTrace<S, A, L, K, Conn, E> = seq![];
    let trace: ConnectTrace<S, A, L, K, Conn, E> = seq![
        (ConnectEvent::Attempt(AttemptEvent::Connected(Ok(stream))), numbers.0),
        (ConnectEvent::Attempt(AttemptEvent::Wrapped(Ok(connection))), numbers.1),
    ];
    lemma_connect_push(request, none, trace[0]);
    lemma_connect_push(request, none.push(trace[0]), trace[1]);
    assert(trace =~= none.push(trace[0]).push(trace[1]));
    let actions: Seq<ConnectStep<'a, C, S, L, K>> = seq![
        ConnectAction::Attempt(AttemptAction::Connect { path: request.socket_path }),
        ConnectAction::Attempt(AttemptAction::Wrap { stream }),
    ];
    assert(connect_actions(request, trace) =~= actions);
}

proof fn lemma_connect_push<'a, C, S, A, L, K, Conn, E>(
    request: ConnectRequest<'a, Seq<u8>, C>,
    before: ConnectTrace<S, A, L, K, Conn, E>,
    answer: (ConnectEvent<Seq<u8>, S, A, L, K, Conn, E>, u64),
)
    requires
        connect_answered(request, before),
        connect_run(request, before) matches ConnectProgress::Ongoing(connecting, _)
            && connecting.expects(answer.0),
    ensures
        connect_answered(request, before.push(answer)),
        connect_run(request, before) matches ConnectProgress::Ongoing(connecting, _)
            ==> connect_run(request, before.push(answer)) == connect_next(
            connecting,
            answer.0,
            answer.1,
        ),
        connect_actions(request, before.push(answer)) == match connect_run(
            request,
            before.push(answer),
        ) {
            ConnectProgress::Ongoing(_, action) => connect_actions(request, before).push(action),
            ConnectProgress::Finished(_) => connect_actions(request, before),
        },
{
    assert(before.push(answer).drop_last() =~= before);
}

/// The answers to a connection whose first attempt finds no socket, and that then succeeds.
pub struct OnDemand<S, A, L, K, Conn, E> {
    pub first_error: E,
    pub temp_dir: Seq<u8>,
    pub number: u64,
    pub listener: L,
    pub child: K,
    pub listener_back: L,
    pub ping: (S, A),
    pub stream: S,
    pub connection: Conn,
}

impl<S, A, L, K, Conn, E> OnDemand<S, A, L, K, Conn, E> {
    /// The answers in the order in which they are given.
    pub open spec fn trace(self) -> ConnectTrace<S, A, L, K, Conn, E> {
        seq![
            (ConnectEvent::Attempt(AttemptEvent::Connected(Err(self.first_error))), 0),
            (ConnectEvent::Create(CreateEvent::TempDir(self.temp_dir)), self.number),
            (ConnectEvent::Create(CreateEvent::Bound(Ok(self.listener))), 0),
            (ConnectEvent::Spawned(Ok(self.child)), 0),
            (
                ConnectEvent::Check(
                    CheckEvent::Accepted {
                        listener: self.listener_back,
                        outcome: Some(Ok(self.ping)),
                    },
                ),
                0,
            ),
            (ConnectEvent::Check(CheckEvent::ShutDown(Ok(()))), 0),
            (ConnectEvent::Check(CheckEvent::Cleaned(CleanupEvent::Closed)), 0),
            (ConnectEvent::Check(CheckEvent::Cleaned(CleanupEvent::Removed)), 0),
            (ConnectEvent::HandedOver(Ok(())), 0),
            (ConnectEvent::Attempt(AttemptEvent::Connected(Ok(self.stream))), 0),
            (ConnectEvent::Attempt(AttemptEvent::Wrapped(Ok(self.connection))), 0),
        ]
    }

    /// What is done for them.
    pub open spec fn actions<'a, C>(
        self,
        request: ConnectRequest<'a, Seq<u8>, C>,
    ) -> Seq<ConnectStep<'a, C, S, L, K>> {
        let path = ephemeral_path(self.temp_dir, self.number);
        seq![
            ConnectAction::Attempt(AttemptAction::Connect { path: request.socket_path }),
            ConnectAction::Create(CreateAction::ReadTempDir),
            ConnectAction::Create(CreateAction::Bind { path }),
            ConnectAction::Spawn {
                executor_prefix: request.executor_prefix,
                liveness_path: path,
            },
            ConnectAction::Check(
                CheckAction::Accept {
                    listener: self.listener,
                    timeout: request.liveness_timeout,
                },
            ),
            ConnectAction::Check(CheckAction::Shutdown { stream: self.ping.0 }),
            ConnectAction::Check(
                CheckAction::Cleanup(CleanupAction::Close { listener: self.listener_back }),
            ),
            ConnectAction::Check(CheckAction::Cleanup(CleanupAction::Remove { cleanable: path })),
            ConnectAction::HandOver { child: self.child },
            ConnectAction::Attempt(AttemptAction::Connect { path: request.socket_path }),
            ConnectAction::Attempt(AttemptAction::Wrap { stream: self.stream }),
        ]
    }
}

/// A service that cannot be connected to is started on demand: an ephemeral socket is bound, the
/// service is started with its path, its ping is awaited, the ephemeral socket is disposed of, the
/// service's process is handed over, and then the service is connected to.
pub proof fn law_service_is_started_on_demand<'a, C, S, A, L, K, Conn, E>(
    request: ConnectRequest<'a, Seq<u8>, C>,
    answers: OnDemand<S, A, L, K, Conn, E>,
)
    ensures
        connect_answered(request, answers.trace()),
        connect_run(request, answers.trace()) == Outcome::<'a, C, S, L, K, Conn, E>::Finished(
            Ok(answers.connection),
        ),
        connect_actions(request, answers.trace()) == answers.actions(request),
{
    let t = answers.trace();
    let none: ConnectTrace<S, A, L, K, Conn, E> = seq![];
    let first = none.push(t[0]);
    let place = first.push(t[1]);
    let bound = place.push(t[2]);
    let spawned = bound.push(t[3]);
    let accepted = spawned.push(t[4]);
    let pinged = accepted.push(t[5]);
    let closed = pinged.push(t[6]);
    let removed = closed.push(t[7]);
    let handed = removed.push(t[8]);
    let connected = handed.push(t[9]);
    lemma_connect_push(request, none, t[0]);
    lemma_connect_push(request, first, t[1]);
    lemma_connect_push(request, place, t[2]);
    lemma_connect_push(request, bound, t[3]);
    lemma_connect_push(request, spawned, t[4]);
    lemma_connect_push(request, accepted, t[5]);
    lemma_connect_push(request, pinged, t[6]);
    lemma_connect_push(request, closed, t[7]);
    lemma_connect_push(request, removed, t[8]);
    lemma_connect_push(request, handed, t[9]);
    lemma_connect_push(request, connected, t[10]);
    assert(t =~= connected.push(t[10]));
    assert(connect_actions(request, t) =~= answers.actions(request));
}

} // verus!
