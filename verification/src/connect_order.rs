//! What has to come before what in a connection.
use crate::attempt::AttemptEvent;
use crate::check::{CheckAction, CheckStage};
use crate::connect::{ConnectAction, ConnectEvent, ConnectProgress, ConnectRequest, ConnectStage};
use crate::connect_laws::{
    bound_listeners, bound_paths, connect_actions, connect_answered, connect_run, connected_paths,
    ephemeral_paths, failures, lemma_connect_consistent, pings, removed_paths, spawns, ConnectStep,
    ConnectTrace, Outcome,
};
use crate::create::CreateStage;
use crate::picked::{lemma_picked_push, picked};
use crate::timeout::LivenessTimeout;
use vstd::prelude::*;

verus! {

/// Whether the first answer in `trace` says that the service could not be connected to.
pub open spec fn not_found<S, A, L, K, Conn, E>(
    trace: ConnectTrace<S, A, L, K, Conn, E>,
) -> bool {
    trace.len() > 0 && (trace[0].0 matches ConnectEvent::Attempt(AttemptEvent::Connected(Err(_))))
}

/// The listener that an action waits on for a ping, and for how long, as a function value.
pub open spec fn accepted_action<'a, C, S, L, K>() -> spec_fn(
    ConnectStep<'a, C, S, L, K>,
) -> Option<(L, LivenessTimeout)> {
    |action: ConnectStep<'a, C, S, L, K>|
        match action {
            ConnectAction::Check(CheckAction::Accept { listener, timeout }) => Some(
                (listener, timeout),
            ),
            _ => None,
        }
}

/// The process that an action hands over, as a function value.
pub open spec fn handed_action<'a, C, S, L, K>() -> spec_fn(
    ConnectStep<'a, C, S, L, K>,
) -> Option<K> {
    |action: ConnectStep<'a, C, S, L, K>|
        match action {
            ConnectAction::HandOver { child } => Some(child),
            _ => None,
        }
}

/// The waits for a ping that were asked for by the time of `trace`.
pub open spec fn accepts<'a, C, S, A, L, K, Conn, E>(
    request: ConnectRequest<'a, Seq<u8>, C>,
    trace: ConnectTrace<S, A, L, K, Conn, E>,
) -> Seq<(L, LivenessTimeout)> {
    picked(connect_actions(request, trace), accepted_action())
}

/// The processes whose hand-over was asked for by the time of `trace`.
pub open spec fn handed_children<'a, C, S, A, L, K, Conn, E>(
    request: ConnectRequest<'a, Seq<u8>, C>,
    trace: ConnectTrace<S, A, L, K, Conn, E>,
) -> Seq<K> {
    picked(connect_actions(request, trace), handed_action())
}

/// The processes that the service was started as in `trace`.
pub open spec fn children<S, A, L, K, Conn, E>(
    trace: ConnectTrace<S, A, L, K, Conn, E>,
) -> Seq<K> {
    picked(
        trace,
        |answer: (ConnectEvent<Seq<u8>, S, A, L, K, Conn, E>, u64)|
            match answer.0 {
                ConnectEvent::Spawned(Ok(child)) => Some(child),
                _ => None,
            },
    )
}

/// The hand-overs that succeeded in `trace`.
pub open spec fn hand_overs<S, A, L, K, Conn, E>(
    trace: ConnectTrace<S, A, L, K, Conn, E>,
) -> Seq<ConnectEvent<Seq<u8>, S, A, L, K, Conn, E>> {
    picked(
        trace,
        |answer: (ConnectEvent<Seq<u8>, S, A, L, K, Conn, E>, u64)|
            match answer.0 {
                ConnectEvent::HandedOver(Ok(())) => Some(answer.0),
                _ => None,
            },
    )
}

/// The path that is still to be cleaned up where a connection stands, if there is one.
pub open spec fn held_paths<'a, C, S, L, K, Conn, E>(
    progress: Outcome<'a, C, S, L, K, Conn, E>,
) -> Seq<Seq<u8>> {
    match progress {
        ConnectProgress::Ongoing(connecting, _) => match connecting.held() {
            Some(path) => seq![path],
            None => Seq::empty(),
        },
        ConnectProgress::Finished(_) => Seq::empty(),
    }
}

/// How many failures have been reported by the time of `stage`.
pub open spec fn failures_by<L, K, E>(stage: ConnectStage<Seq<u8>, L, K, E>) -> nat {
    match stage {
        ConnectStage::First(_) => 0,
        ConnectStage::Creating(CreateStage::Removing { .. }) => 2,
        ConnectStage::Abandoning(_) => 2,
        ConnectStage::Checking { check: CheckStage::Failing(_), .. } => 2,
        _ => 1,
    }
}

/// Whether a service that was started is waited for, or was, by the time of `stage`.
pub open spec fn waits_by<L, K, E>(stage: ConnectStage<Seq<u8>, L, K, E>) -> bool {
    stage is Checking || stage is HandingOver || stage is Second
}

/// What has happened by the time that a connection stands at `stage`.
pub open spec fn stage_ordered<'a, C, S, A, L, K, Conn, E>(
    request: ConnectRequest<'a, Seq<u8>, C>,
    trace: ConnectTrace<S, A, L, K, Conn, E>,
    stage: ConnectStage<Seq<u8>, L, K, E>,
) -> bool {
    let listening = bound_listeners(trace);
    let started = children(trace);
    let accepted = accepts(request, trace);
    let handed = handed_children(request, trace);
    &&& stage !is First ==> not_found(trace)
    &&& failures(trace, request.liveness_timeout).len() == failures_by(stage)
    &&& stage matches ConnectStage::Spawning { listener, .. } ==> listening.len() == 1
        && listening[0] == listener
    &&& if waits_by(stage) {
        &&& listening.len() == 1 && accepted == seq![(listening[0], request.liveness_timeout)]
        &&& started.len() == 1
        &&& stage matches ConnectStage::Checking { child, .. } ==> started == seq![child]
    } else {
        accepted == Seq::<(L, LivenessTimeout)>::empty() && started == Seq::<K>::empty()
    }
    &&& if stage is HandingOver || stage is Second {
        handed == started
    } else {
        handed == Seq::<K>::empty()
    }
    &&& hand_overs(trace).len() == if stage is Second {
        1nat
    } else {
        0
    }
}

/// What has happened by the time that a connection has come to its outcome.
pub open spec fn outcome_ordered<'a, C, S, A, L, K, Conn, E>(
    request: ConnectRequest<'a, Seq<u8>, C>,
    trace: ConnectTrace<S, A, L, K, Conn, E>,
) -> bool {
    let listening = bound_listeners(trace);
    let started = children(trace);
    let accepted = accepts(request, trace);
    let handed = handed_children(request, trace);
    &&& bound_paths(request, trace).len() > 0 ==> not_found(trace)
    &&& accepted.len() == 0 || listening.len() == 1 && accepted == seq![
        (listening[0], request.liveness_timeout),
    ]
    &&& handed.len() == 0 || started.len() == 1 && handed == started && pings(trace).len() == 1
    &&& connected_paths(request, trace).len() == 2 ==> handed.len() == 1 && hand_overs(trace).len()
        == 1
    &&& removed_paths(request, trace).len() > 0 ==> pings(trace).len() == 1 || failures(
        trace,
        request.liveness_timeout,
    ).len() == 2
}

/// What has happened by the time of `trace`.
pub open spec fn connect_ordered<'a, C, S, A, L, K, Conn, E>(
    request: ConnectRequest<'a, Seq<u8>, C>,
    trace: ConnectTrace<S, A, L, K, Conn, E>,
) -> bool {
    match connect_run(request, trace) {
        ConnectProgress::Ongoing(connecting, _) => stage_ordered(request, trace, connecting.stage),
        ConnectProgress::Finished(_) => outcome_ordered(request, trace),
    }
}

#[verifier::spinoff_prover]
proof fn lemma_connect_ordered<'a, C, S, A, L, K, Conn, E>(
    request: ConnectRequest<'a, Seq<u8>, C>,
    trace: ConnectTrace<S, A, L, K, Conn, E>,
)
    requires
        connect_answered(request, trace),
    ensures
        connect_ordered(request, trace),
    decreases trace.len(),
{
    let before = if trace.len() == 0 {
        Seq::empty()
    } else {
        connect_actions(request, trace.drop_last())
    };
    if let ConnectProgress::Ongoing(_, action) = connect_run(request, trace) {
        lemma_picked_push(before, action, accepted_action());
        lemma_picked_push(before, action, handed_action());
    }
    lemma_connect_consistent(request, trace);
    if trace.len() > 0 {
        lemma_connect_ordered(request, trace.drop_last());
        lemma_connect_consistent(request, trace.drop_last());
    }
}

/// A service that is found is not started: at any time, an ephemeral socket has been bound or the
/// service started only if the very first answer was that it could not be connected to. So a
/// service that can be connected to is left alone even where its stream cannot be wrapped.
pub proof fn law_service_is_started_only_if_not_found<'a, C, S, A, L, K, Conn, E>(
    request: ConnectRequest<'a, Seq<u8>, C>,
    trace: ConnectTrace<S, A, L, K, Conn, E>,
)
    requires
        connect_answered(request, trace),
    ensures
        spawns(request, trace).len() > 0 || bound_paths(request, trace).len() > 0 ==> trace.len()
            > 0 && (trace[0].0 matches ConnectEvent::Attempt(AttemptEvent::Connected(Err(_)))),
{
    lemma_connect_ordered(request, trace);
    lemma_connect_consistent(request, trace);
}

/// At any time, a ping has been waited for at most once: on the one listener that was bound, and
/// for as long as was asked for. The process has been handed over at most once: it is the one
/// that the service was started as, and the ping was dealt with before. And a second connection
/// has been asked for only after the hand-over succeeded.
pub proof fn law_second_attempt_follows_hand_over<'a, C, S, A, L, K, Conn, E>(
    request: ConnectRequest<'a, Seq<u8>, C>,
    trace: ConnectTrace<S, A, L, K, Conn, E>,
)
    requires
        connect_answered(request, trace),
    ensures
        accepts(request, trace).len() == 0 || bound_listeners(trace).len() == 1 && accepts(
            request,
            trace,
        ) == seq![(bound_listeners(trace)[0], request.liveness_timeout)],
        handed_children(request, trace).len() == 0 || children(trace).len() == 1
            && handed_children(request, trace) == children(trace) && pings(trace).len() == 1,
        connected_paths(request, trace).len() <= 2,
        connected_paths(request, trace).len() == 2 ==> handed_children(request, trace).len() == 1
            && hand_overs(trace).len() == 1,
{
    lemma_connect_ordered(request, trace);
    lemma_connect_consistent(request, trace);
}

/// The ephemeral socket stays for as long as the service may ping it: at any time, its path has
/// been cleaned up only if the ping was dealt with, or if something failed after the service was
/// not found. And by the time that the hand-over is asked for, it has been cleaned up.
pub proof fn law_ephemeral_socket_outlasts_the_wait<'a, C, S, A, L, K, Conn, E>(
    request: ConnectRequest<'a, Seq<u8>, C>,
    trace: ConnectTrace<S, A, L, K, Conn, E>,
)
    requires
        connect_answered(request, trace),
    ensures
        removed_paths(request, trace).len() > 0 ==> pings(trace).len() == 1 || failures(
            trace,
            request.liveness_timeout,
        ).len() == 2,
        handed_children(request, trace).len() > 0 ==> removed_paths(request, trace) == bound_paths(
            request,
            trace,
        ),
{
    lemma_connect_ordered(request, trace);
    lemma_connect_consistent(request, trace);
}

/// No path is lost: at any time, what was bound is what was cleaned up together with what is still
/// held, to be handed back where the connection is given up. So the ephemeral socket is cleaned up
/// exactly once, whether the connection is carried to its outcome or not.
pub proof fn law_connect_holds_what_it_has_to_clean_up<'a, C, S, A, L, K, Conn, E>(
    request: ConnectRequest<'a, Seq<u8>, C>,
    trace: ConnectTrace<S, A, L, K, Conn, E>,
)
    requires
        connect_answered(request, trace),
    ensures
        bound_paths(request, trace) == removed_paths(request, trace) + held_paths(
            connect_run(request, trace),
        ),
{
    lemma_connect_consistent(request, trace);
}

/// A connection cleans up nothing but ephemeral paths, so the service's own socket stays, but for
/// the case that the ephemeral path that was drawn is the service's own.
pub proof fn law_socket_of_the_service_stays<'a, C, S, A, L, K, Conn, E>(
    request: ConnectRequest<'a, Seq<u8>, C>,
    trace: ConnectTrace<S, A, L, K, Conn, E>,
)
    requires
        connect_answered(request, trace),
        !ephemeral_paths(trace).contains(request.socket_path),
    ensures
        !removed_paths(request, trace).contains(request.socket_path),
        !held_paths(connect_run(request, trace)).contains(request.socket_path),
{
    lemma_connect_consistent(request, trace);
    law_connect_holds_what_it_has_to_clean_up(request, trace);
    let removed = removed_paths(request, trace);
    let held = held_paths(connect_run(request, trace));
    let bound = ephemeral_paths(trace);
    assert forall|i: int| 0 <= i < removed.len() implies removed[i] != request.socket_path by {
        assert(bound[i] == (removed + held)[i]);
    }
    assert forall|i: int| 0 <= i < held.len() implies held[i] != request.socket_path by {
        assert(bound[removed.len() + i] == (removed + held)[removed.len() + i]);
    }
}

} // verus!
