//! Waiting for a service that was started to report that it is live.
use crate::cleanable_path::{optional_cleanable, CleanablePathBuf};
use crate::cleanup::{
    begin_cleanup, cleanup_next, cleanup_start, CleanupAction, CleanupEvent, CleanupProgress,
    CleanupStage,
};
use crate::error::ServiceError;
use crate::timeout::LivenessTimeout;
use vstd::prelude::*;

verus! {

/// Where the wait for a liveness ping stands.
#[derive(Debug, PartialEq, Eq)]
pub enum CheckStage<G, L, E> {
    /// The listener waits for a connection.
    Accepting { path: G, timeout: LivenessTimeout },
    /// The connection that was made is being shut down.
    ShuttingDown { listener: L, path: G },
    /// The service is live; the listener is being closed.
    Closing { path: G },
    /// The service is live; the path is being cleaned up.
    Removing,
    /// The wait failed, and the socket is being given up.
    Failing(CleanupStage<L, ServiceError<E>>),
}

/// What the wait for a liveness ping asks its driver to do next.
#[derive(Debug, PartialEq, Eq)]
pub enum CheckAction<G, L, S> {
    /// Accept a connection on `listener`, waiting for no longer than `timeout`.
    Accept { listener: L, timeout: LivenessTimeout },
    /// Shut `stream` down.
    Shutdown { stream: S },
    /// Dispose of a part of the socket.
    Cleanup(CleanupAction<G, L>),
}

/// How a [`CheckAction`] came out.
#[derive(Debug, PartialEq, Eq)]
pub enum CheckEvent<L, S, A, E> {
    /// The answer to [`CheckAction::Accept`]: the listener, and the connection with its address or
    /// the failure to accept one, or `None` if there was neither in time.
    Accepted { listener: L, outcome: Option<Result<(S, A), E>> },
    /// The answer to [`CheckAction::Shutdown`].
    ShutDown(Result<(), E>),
    /// The answer to [`CheckAction::Cleanup`].
    Cleaned(CleanupEvent),
}

/// A wait under way with its next action, or its outcome: `Ok` if the service is live.
#[derive(Debug, PartialEq, Eq)]
pub enum CheckProgress<G, L, S, E> {
    Ongoing(CheckStage<G, L, E>, CheckAction<G, L, S>),
    Finished(Result<(), ServiceError<E>>),
}

impl<L, E> View for CheckStage<CleanablePathBuf, L, E> {
    type V = CheckStage<Seq<u8>, L, E>;

    open spec fn view(&self) -> CheckStage<Seq<u8>, L, E> {
        match *self {
            CheckStage::Accepting { path, timeout } => CheckStage::Accepting {
                path: path@,
                timeout,
            },
            CheckStage::ShuttingDown { listener, path } => CheckStage::ShuttingDown {
                listener,
                path: path@,
            },
            CheckStage::Closing { path } => CheckStage::Closing { path: path@ },
            CheckStage::Removing => CheckStage::Removing,
            CheckStage::Failing(stage) => CheckStage::Failing(stage),
        }
    }
}

impl<L, S> View for CheckAction<CleanablePathBuf, L, S> {
    type V = CheckAction<Seq<u8>, L, S>;

    open spec fn view(&self) -> CheckAction<Seq<u8>, L, S> {
        match *self {
            CheckAction::Accept { listener, timeout } => CheckAction::Accept { listener, timeout },
            CheckAction::Shutdown { stream } => CheckAction::Shutdown { stream },
            CheckAction::Cleanup(action) => CheckAction::Cleanup(action@),
        }
    }
}

impl<L, S, E> View for CheckProgress<CleanablePathBuf, L, S, E> {
    type V = CheckProgress<Seq<u8>, L, S, E>;

    open spec fn view(&self) -> CheckProgress<Seq<u8>, L, S, E> {
        match *self {
            CheckProgress::Ongoing(stage, action) => CheckProgress::Ongoing(stage@, action@),
            CheckProgress::Finished(outcome) => CheckProgress::Finished(outcome),
        }
    }
}

/// A disposal as a part of the wait that failed.
pub open spec fn check_failing<L, S, E>(
    cleanup: CleanupProgress<Seq<u8>, L, ServiceError<E>>,
) -> CheckProgress<Seq<u8>, L, S, E> {
    match cleanup {
        CleanupProgress::Ongoing(stage, action) => CheckProgress::Ongoing(
            CheckStage::Failing(stage),
            CheckAction::Cleanup(action),
        ),
        CleanupProgress::Finished(error) => CheckProgress::Finished(Err(error)),
    }
}

/// The wait begins by accepting a connection.
pub open spec fn check_start<L, S, E>(
    listener: L,
    path: Seq<u8>,
    timeout: LivenessTimeout,
) -> CheckProgress<Seq<u8>, L, S, E> {
    CheckProgress::Ongoing(
        CheckStage::Accepting { path, timeout },
        CheckAction::Accept { listener, timeout },
    )
}

/// A connection within the time, shut down without a failure, says that the service is live; then
/// the listener is closed and its path cleaned up. A failure to accept or to shut down is handed
/// on, no connection within the time is a failure of its own, and after either the socket is given
/// up.
pub open spec fn check_next<L, S, A, E>(
    stage: CheckStage<Seq<u8>, L, E>,
    event: CheckEvent<L, S, A, E>,
) -> CheckProgress<Seq<u8>, L, S, E> {
    match (stage, event) {
        (CheckStage::Accepting { path, timeout }, CheckEvent::Accepted { listener, outcome }) => {
            match outcome {
                None => check_failing(
                    cleanup_start(listener, path, ServiceError::TimedOut(timeout)),
                ),
                Some(Err(error)) => check_failing(
                    cleanup_start(listener, path, ServiceError::Io(error)),
                ),
                Some(Ok((stream, _))) => CheckProgress::Ongoing(
                    CheckStage::ShuttingDown { listener, path },
                    CheckAction::Shutdown { stream },
                ),
            }
        },
        (CheckStage::ShuttingDown { listener, path }, CheckEvent::ShutDown(Err(error))) => {
            check_failing(cleanup_start(listener, path, ServiceError::Io(error)))
        },
        (CheckStage::ShuttingDown { listener, path }, CheckEvent::ShutDown(Ok(()))) => {
            CheckProgress::Ongoing(
                CheckStage::Closing { path },
                CheckAction::Cleanup(CleanupAction::Close { listener }),
            )
        },
        (CheckStage::Closing { path }, _) => CheckProgress::Ongoing(
            CheckStage::Removing,
            CheckAction::Cleanup(CleanupAction::Remove { cleanable: path }),
        ),
        (CheckStage::Removing, _) => CheckProgress::Finished(Ok(())),
        (CheckStage::Failing(cleanup), _) => check_failing(cleanup_next(cleanup)),
        _ => arbitrary(),
    }
}

fn fail_check<L, S, E>(
    cleanup: CleanupProgress<CleanablePathBuf, L, ServiceError<E>>,
) -> (progress: CheckProgress<CleanablePathBuf, L, S, E>)
    ensures
        progress@ == check_failing::<L, S, E>(cleanup@),
{
    match cleanup {
        CleanupProgress::Ongoing(stage, action) => CheckProgress::Ongoing(
            CheckStage::Failing(stage),
            CheckAction::Cleanup(action),
        ),
        CleanupProgress::Finished(error) => CheckProgress::Finished(Err(error)),
    }
}

/// Start to wait for a connection ping on the ephemeral socket after starting the relevant
/// process, with a timeout. See [`crate::create::ephemeral_liveness_socket_create`].
pub fn ephemeral_liveness_socket_check_with_timeout<L, S, E>(
    ephemeral_listener: L,
    listener_path: CleanablePathBuf,
    liveness_timeout: LivenessTimeout,
) -> (progress: CheckProgress<CleanablePathBuf, L, S, E>)
    ensures
        progress@ == check_start::<L, S, E>(ephemeral_listener, listener_path@, liveness_timeout),
{
    CheckProgress::Ongoing(
        CheckStage::Accepting { path: listener_path, timeout: liveness_timeout },
        CheckAction::Accept { listener: ephemeral_listener, timeout: liveness_timeout },
    )
}

impl<G, L, E> CheckStage<G, L, E> {
    /// Whether `event` answers what a wait at this stage waits for.
    pub open spec fn expects<S, A>(self, event: CheckEvent<L, S, A, E>) -> bool {
        match self {
            CheckStage::Accepting { .. } => event is Accepted,
            CheckStage::ShuttingDown { .. } => event is ShutDown,
            CheckStage::Closing { .. } => event == CheckEvent::<L, S, A, E>::Cleaned(
                CleanupEvent::Closed,
            ),
            CheckStage::Removing => event == CheckEvent::<L, S, A, E>::Cleaned(
                CleanupEvent::Removed,
            ),
            CheckStage::Failing(cleanup) => event matches CheckEvent::Cleaned(done)
                && cleanup.expects(done),
        }
    }

    /// The path that is still to be cleaned up.
    pub open spec fn held(self) -> Option<G> {
        match self {
            CheckStage::Accepting { path, .. } => Some(path),
            CheckStage::ShuttingDown { path, .. } => Some(path),
            CheckStage::Closing { path } => Some(path),
            CheckStage::Removing | CheckStage::Failing(_) => None,
        }
    }
}

impl<L, E> CheckStage<CleanablePathBuf, L, E> {
    /// Whether `event` answers what a wait at this stage waits for.
    pub fn awaits<S, A>(&self, event: &CheckEvent<L, S, A, E>) -> (answers: bool)
        ensures
            answers == self.expects(*event),
    {
        match (self, event) {
            (CheckStage::Accepting { .. }, CheckEvent::Accepted { .. }) => true,
            (CheckStage::ShuttingDown { .. }, CheckEvent::ShutDown(_)) => true,
            (CheckStage::Closing { .. }, CheckEvent::Cleaned(CleanupEvent::Closed)) => true,
            (CheckStage::Removing, CheckEvent::Cleaned(CleanupEvent::Removed)) => true,
            (CheckStage::Failing(cleanup), CheckEvent::Cleaned(done)) => cleanup.awaits(done),
            _ => false,
        }
    }

    /// Give the wait up where it stands. The path that is still to be cleaned up, if there is one,
    /// is handed back.
    pub fn give_up(self) -> (path: Option<CleanablePathBuf>)
        ensures
            optional_cleanable(path) == self@.held(),
    {
        match self {
            CheckStage::Accepting { path, timeout: _ } => Some(path),
            CheckStage::ShuttingDown { listener: _, path } => Some(path),
            CheckStage::Closing { path } => Some(path),
            CheckStage::Removing | CheckStage::Failing(_) => None,
        }
    }

    /// Go on with the answer to the last action.
    pub fn step<S, A>(self, event: CheckEvent<L, S, A, E>) -> (progress: CheckProgress<
        CleanablePathBuf,
        L,
        S,
        E,
    >)
        requires
            self.expects(event),
        ensures
            progress@ == check_next(self@, event),
    {
        match (self, event) {
            (
                CheckStage::Accepting { path, timeout },
                CheckEvent::Accepted { listener, outcome },
            ) => match outcome {
                None => fail_check(begin_cleanup(listener, path, ServiceError::TimedOut(timeout))),
                Some(Err(error)) => fail_check(
                    begin_cleanup(listener, path, ServiceError::Io(error)),
                ),
                Some(Ok((stream, _address))) => CheckProgress::Ongoing(
                    CheckStage::ShuttingDown { listener, path },
                    CheckAction::Shutdown { stream },
                ),
            },
            (CheckStage::ShuttingDown { listener, path }, CheckEvent::ShutDown(Err(error))) => {
                fail_check(begin_cleanup(listener, path, ServiceError::Io(error)))
            },
            (CheckStage::ShuttingDown { listener, path }, CheckEvent::ShutDown(Ok(()))) => {
                CheckProgress::Ongoing(
                    CheckStage::Closing { path },
                    CheckAction::Cleanup(CleanupAction::Close { listener }),
                )
            },
            (CheckStage::Closing { path }, _) => CheckProgress::Ongoing(
                CheckStage::Removing,
                CheckAction::Cleanup(CleanupAction::Remove { cleanable: path }),
            ),
            (CheckStage::Removing, _) => CheckProgress::Finished(Ok(())),
            (CheckStage::Failing(cleanup), CheckEvent::Cleaned(done)) => {
                fail_check(cleanup.step(done))
            },
            _ => {
                assert(false);
                vstd::pervasive::unreached()
            },
        }
    }
}

/// A wait accepts on exactly the listener that it was given and for exactly the time. Silence is a
/// timeout of that time, a failure to accept or to shut down is itself, and after either the path
/// is removed and the listener closed; a stream that was accepted is shut down, and after that the
/// listener is closed, then the path removed, and the service is live.
pub proof fn law_check_steps<L, S, A, E>(
    listener: L,
    path: Seq<u8>,
    timeout: LivenessTimeout,
    stage: CheckStage<Seq<u8>, L, E>,
    event: CheckEvent<L, S, A, E>,
)
    ensures
        check_start::<L, S, E>(listener, path, timeout) matches CheckProgress::Ongoing(
            CheckStage::Accepting { path: kept, timeout: limit },
            CheckAction::Accept { listener: on, timeout: within },
        ) && kept == path && limit == timeout && on == listener && within == timeout,
        ({
            let next = check_next(stage, event);
            match (stage, event) {
                (
                    CheckStage::Accepting { path, timeout },
                    CheckEvent::Accepted { listener, outcome: None },
                ) => next matches CheckProgress::Ongoing(
                    CheckStage::Failing(CleanupStage::Removing { listener: kept, error }),
                    CheckAction::Cleanup(CleanupAction::Remove { cleanable }),
                ) && kept == listener && cleanable == path && error == ServiceError::<
                    E,
                >::TimedOut(timeout),
                (
                    CheckStage::Accepting { path, .. },
                    CheckEvent::Accepted { listener, outcome: Some(Err(failure)) },
                ) => next matches CheckProgress::Ongoing(
                    CheckStage::Failing(CleanupStage::Removing { listener: kept, error }),
                    CheckAction::Cleanup(CleanupAction::Remove { cleanable }),
                ) && kept == listener && cleanable == path && error == ServiceError::Io(failure),
                (
                    CheckStage::Accepting { path, .. },
                    CheckEvent::Accepted { listener, outcome: Some(Ok((stream, _))) },
                ) => next matches CheckProgress::Ongoing(
                    CheckStage::ShuttingDown { listener: kept, path: kept_path },
                    CheckAction::Shutdown { stream: shut },
                ) && kept == listener && kept_path == path && shut == stream,
                (
                    CheckStage::ShuttingDown { listener, path },
                    CheckEvent::ShutDown(Err(failure)),
                ) => next matches CheckProgress::Ongoing(
                    CheckStage::Failing(CleanupStage::Removing { listener: kept, error }),
                    CheckAction::Cleanup(CleanupAction::Remove { cleanable }),
                ) && kept == listener && cleanable == path && error == ServiceError::Io(failure),
                (CheckStage::ShuttingDown { listener, path }, CheckEvent::ShutDown(Ok(()))) => {
                    next matches CheckProgress::Ongoing(
                        CheckStage::Closing { path: kept },
                        CheckAction::Cleanup(CleanupAction::Close { listener: closed }),
                    ) && kept == path && closed == listener
                },
                (CheckStage::Closing { path }, CheckEvent::Cleaned(CleanupEvent::Closed)) => {
                    next matches CheckProgress::Ongoing(
                        CheckStage::Removing,
                        CheckAction::Cleanup(CleanupAction::Remove { cleanable }),
                    ) && cleanable == path
                },
                (CheckStage::Removing, CheckEvent::Cleaned(CleanupEvent::Removed)) => {
                    next matches CheckProgress::Finished(Ok(()))
                },
                (
                    CheckStage::Failing(CleanupStage::Removing { listener, error }),
                    CheckEvent::Cleaned(CleanupEvent::Removed),
                ) => next matches CheckProgress::Ongoing(
                    CheckStage::Failing(CleanupStage::Closing { error: reason }),
                    CheckAction::Cleanup(CleanupAction::Close { listener: closed }),
                ) && reason == error && closed == listener,
                (
                    CheckStage::Failing(CleanupStage::Closing { error }),
                    CheckEvent::Cleaned(CleanupEvent::Closed),
                ) => next matches CheckProgress::Finished(Err(reason)) && reason == error,
                _ => true,
            }
        }),
{
}

/// A wait waits for the answer to what it asked for last, and for no other. What it holds to be
/// cleaned up is the path of its listener, until the removal of that is asked for.
pub proof fn law_check_awaits<G, L, S, A, E>(
    stage: CheckStage<G, L, E>,
    event: CheckEvent<L, S, A, E>,
)
    ensures
        stage.expects(event) <==> match (stage, event) {
            (CheckStage::Accepting { .. }, CheckEvent::Accepted { .. }) => true,
            (CheckStage::ShuttingDown { .. }, CheckEvent::ShutDown(_)) => true,
            (CheckStage::Closing { .. }, CheckEvent::Cleaned(CleanupEvent::Closed)) => true,
            (CheckStage::Removing, CheckEvent::Cleaned(CleanupEvent::Removed)) => true,
            (
                CheckStage::Failing(CleanupStage::Removing { .. }),
                CheckEvent::Cleaned(CleanupEvent::Removed),
            ) => true,
            (
                CheckStage::Failing(CleanupStage::Closing { .. }),
                CheckEvent::Cleaned(CleanupEvent::Closed),
            ) => true,
            _ => false,
        },
        match stage {
            CheckStage::Accepting { path, .. } => stage.held() == Some(path),
            CheckStage::ShuttingDown { path, .. } => stage.held() == Some(path),
            CheckStage::Closing { path } => stage.held() == Some(path),
            _ => stage.held() is None,
        },
{
}

/// The values of a wait are seen as they are, their paths byte for byte.
pub proof fn law_check_is_seen_whole<L, S, E>(
    stage: CheckStage<CleanablePathBuf, L, E>,
    action: CheckAction<CleanablePathBuf, L, S>,
    progress: CheckProgress<CleanablePathBuf, L, S, E>,
)
    ensures
        match stage {
            CheckStage::Accepting { path, timeout } => stage@ matches CheckStage::Accepting {
                path: seen,
                timeout: limit,
            } && seen == path@ && limit == timeout,
            CheckStage::ShuttingDown { listener, path } => {
                stage@ matches CheckStage::ShuttingDown { listener: kept, path: seen } && kept
                    == listener && seen == path@
            },
            CheckStage::Closing { path } => stage@ matches CheckStage::Closing { path: seen }
                && seen == path@,
            CheckStage::Removing => stage@ is Removing,
            CheckStage::Failing(cleanup) => stage@ matches CheckStage::Failing(seen) && seen
                == cleanup,
        },
        match action {
            CheckAction::Accept { listener, timeout } => action@ matches CheckAction::Accept {
                listener: on,
                timeout: within,
            } && on == listener && within == timeout,
            CheckAction::Shutdown { stream } => action@ matches CheckAction::Shutdown {
                stream: shut,
            } && shut == stream,
            CheckAction::Cleanup(cleanup) => action@ matches CheckAction::Cleanup(seen) && seen
                == cleanup@,
        },
        match progress {
            CheckProgress::Ongoing(stage, action) => progress@ matches CheckProgress::Ongoing(
                seen,
                seen_action,
            ) && seen == stage@ && seen_action == action@,
            CheckProgress::Finished(outcome) => progress@ matches CheckProgress::Finished(seen)
                && seen == outcome,
        },
{
}

} // verus!
