//! Telling the process that started a service that the service is live.
use vstd::prelude::*;
use vstd::slice::slice_to_vec;

verus! {

/// Where the notification of a liveness socket stands.
#[derive(Clone, Copy, Debug, PartialEq, Eq)]
pub enum NotifyStage {
    /// A stream to the liveness socket was asked for.
    Connecting,
    /// The stream is being shut down.
    ShuttingDown,
}

/// What the notification of a liveness socket asks its driver to do next. `P` is a path.
#[derive(Debug, PartialEq, Eq)]
pub enum NotifyAction<P, S> {
    /// Connect a stream to the liveness socket at `path`.
    Connect { path: P },
    /// Shut `stream` down.
    Shutdown { stream: S },
}

/// How a [`NotifyAction`] came out.
#[derive(Debug, PartialEq, Eq)]
pub enum NotifyEvent<S, E> {
    /// The answer to [`NotifyAction::Connect`].
    Connected(Result<S, E>),
    /// The answer to [`NotifyAction::Shutdown`].
    ShutDown(Result<(), E>),
}

/// A notification under way with its next action, or its outcome.
#[derive(Debug, PartialEq, Eq)]
pub enum NotifyProgress<P, S, E> {
    Ongoing(NotifyStage, NotifyAction<P, S>),
    Finished(Result<(), E>),
}

impl<S> View for NotifyAction<Vec<u8>, S> {
    type V = NotifyAction<Seq<u8>, S>;

    open spec fn view(&self) -> NotifyAction<Seq<u8>, S> {
        match *self {
            NotifyAction::Connect { path } => NotifyAction::Connect { path: path@ },
            NotifyAction::Shutdown { stream } => NotifyAction::Shutdown { stream },
        }
    }
}

impl<S, E> View for NotifyProgress<Vec<u8>, S, E> {
    type V = NotifyProgress<Seq<u8>, S, E>;

    open spec fn view(&self) -> NotifyProgress<Seq<u8>, S, E> {
        match *self {
            NotifyProgress::Ongoing(stage, action) => NotifyProgress::Ongoing(stage, action@),
            NotifyProgress::Finished(outcome) => NotifyProgress::Finished(outcome),
        }
    }
}

/// A notification begins by connecting to the liveness socket.
pub open spec fn notify_start<S, E>(path: Seq<u8>) -> NotifyProgress<Seq<u8>, S, E> {
    NotifyProgress::Ongoing(NotifyStage::Connecting, NotifyAction::Connect { path })
}

/// The connection itself is the message, so it is shut down at once. Any failure is the outcome.
pub open spec fn notify_next<S, E>(event: NotifyEvent<S, E>) -> NotifyProgress<Seq<u8>, S, E> {
    match event {
        NotifyEvent::Connected(Ok(stream)) => NotifyProgress::Ongoing(
            NotifyStage::ShuttingDown,
            NotifyAction::Shutdown { stream },
        ),
        NotifyEvent::Connected(Err(error)) => NotifyProgress::Finished(Err(error)),
        NotifyEvent::ShutDown(outcome) => NotifyProgress::Finished(outcome),
    }
}

/// Start to notify a liveness socket by connecting and then immediately disconnecting.
pub fn notify_liveness_socket<S, E>(liveness_socket_path: &[u8]) -> (progress: NotifyProgress<
    Vec<u8>,
    S,
    E,
>)
    ensures
        progress@ == notify_start::<S, E>(liveness_socket_path@),
{
    NotifyProgress::Ongoing(
        NotifyStage::Connecting,
        NotifyAction::Connect { path: slice_to_vec(liveness_socket_path) },
    )
}

impl NotifyStage {
    /// Whether `event` answers what a notification at this stage waits for.
    pub open spec fn expects<S, E>(self, event: NotifyEvent<S, E>) -> bool {
        match self {
            NotifyStage::Connecting => event is Connected,
            NotifyStage::ShuttingDown => event is ShutDown,
        }
    }

    /// Whether `event` answers what a notification at this stage waits for.
    pub fn awaits<S, E>(&self, event: &NotifyEvent<S, E>) -> (answers: bool)
        ensures
            answers == self.expects(*event),
    {
        match (self, event) {
            (NotifyStage::Connecting, NotifyEvent::Connected(_)) => true,
            (NotifyStage::ShuttingDown, NotifyEvent::ShutDown(_)) => true,
            _ => false,
        }
    }

    /// Go on with the answer to the last action.
    pub fn step<S, E>(self, event: NotifyEvent<S, E>) -> (progress: NotifyProgress<Vec<u8>, S, E>)
        requires
            self.expects(event),
        ensures
            progress@ == notify_next(event),
    {
        match event {
            NotifyEvent::Connected(Ok(stream)) => NotifyProgress::Ongoing(
                NotifyStage::ShuttingDown,
                NotifyAction::Shutdown { stream },
            ),
            NotifyEvent::Connected(Err(error)) => NotifyProgress::Finished(Err(error)),
            NotifyEvent::ShutDown(outcome) => NotifyProgress::Finished(outcome),
        }
    }
}

/// A notification connects to exactly the path that it was given and shuts the stream that it gets
/// down; a failure of either is its outcome, and otherwise it succeeds.
pub proof fn law_notify_steps<S, E>(path: Seq<u8>, event: NotifyEvent<S, E>)
    ensures
        notify_start::<S, E>(path) matches NotifyProgress::Ongoing(
            NotifyStage::Connecting,
            NotifyAction::Connect { path: pinged },
        ) && pinged == path,
        match event {
            NotifyEvent::Connected(Ok(stream)) => notify_next(event) matches NotifyProgress::Ongoing(
                NotifyStage::ShuttingDown,
                NotifyAction::Shutdown { stream: shut },
            ) && shut == stream,
            NotifyEvent::Connected(Err(error)) => notify_next(
                event,
            ) matches NotifyProgress::Finished(Err(reason)) && reason == error,
            NotifyEvent::ShutDown(outcome) => notify_next(event) matches NotifyProgress::Finished(
                result,
            ) && result == outcome,
        },
{
}

/// A notification waits for the answer to what it asked for last, and for no other.
pub proof fn law_notify_awaits<S, E>(stage: NotifyStage, event: NotifyEvent<S, E>)
    ensures
        stage.expects(event) <==> match (stage, event) {
            (NotifyStage::Connecting, NotifyEvent::Connected(_)) => true,
            (NotifyStage::ShuttingDown, NotifyEvent::ShutDown(_)) => true,
            _ => false,
        },
{
}

/// The values of a notification are seen as they are, their paths byte for byte.
pub proof fn law_notify_is_seen_whole<S, E>(
    action: NotifyAction<Vec<u8>, S>,
    progress: NotifyProgress<Vec<u8>, S, E>,
)
    ensures
        match action {
            NotifyAction::Connect { path } => action@ matches NotifyAction::Connect { path: seen }
                && seen == path@,
            NotifyAction::Shutdown { stream } => action@ matches NotifyAction::Shutdown {
                stream: seen,
            } && seen == stream,
        },
        match progress {
            NotifyProgress::Ongoing(stage, action) => progress@ matches NotifyProgress::Ongoing(
                seen,
                seen_action,
            ) && seen == stage && seen_action == action@,
            NotifyProgress::Finished(outcome) => progress@ matches NotifyProgress::Finished(seen)
                && seen == outcome,
        },
{
}

} // verus!
