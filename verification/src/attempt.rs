//! One attempt to connect to a service that may already be running.
use vstd::prelude::*;
use vstd::slice::slice_to_vec;

verus! {

/// Where an attempt stands: which answer it waits for.
#[derive(Clone, Copy, Debug, PartialEq, Eq)]
pub enum AttemptStage {
    /// A stream to the service's socket was asked for.
    Connecting,
    /// The stream is being wrapped into the service's client connection.
    Wrapping,
}

/// What an attempt asks its driver to do next. `P` is a path.
#[derive(Debug, PartialEq, Eq)]
pub enum AttemptAction<P, Stream> {
    /// Connect a stream to the socket at `path`.
    Connect { path: P },
    /// Make the service's client connection of `stream`.
    Wrap { stream: Stream },
}

/// How an [`AttemptAction`] came out.
#[derive(Debug, PartialEq, Eq)]
pub enum AttemptEvent<Stream, Conn, E> {
    /// The answer to [`AttemptAction::Connect`].
    Connected(Result<Stream, E>),
    /// The answer to [`AttemptAction::Wrap`].
    Wrapped(Result<Conn, E>),
}

/// An attempt under way with its next action, or its outcome.
#[derive(Debug, PartialEq, Eq)]
pub enum AttemptProgress<P, Stream, Conn, E> {
    Ongoing(AttemptStage, AttemptAction<P, Stream>),
    Finished(Result<Conn, E>),
}

impl<Stream> View for AttemptAction<Vec<u8>, Stream> {
    type V = AttemptAction<Seq<u8>, Stream>;

    open spec fn view(&self) -> AttemptAction<Seq<u8>, Stream> {
        match *self {
            AttemptAction::Connect { path } => AttemptAction::Connect { path: path@ },
            AttemptAction::Wrap { stream } => AttemptAction::Wrap { stream },
        }
    }
}

impl<Stream, Conn, E> View for AttemptProgress<Vec<u8>, Stream, Conn, E> {
    type V = AttemptProgress<Seq<u8>, Stream, Conn, E>;

    open spec fn view(&self) -> AttemptProgress<Seq<u8>, Stream, Conn, E> {
        match *self {
            AttemptProgress::Ongoing(stage, action) => AttemptProgress::Ongoing(stage, action@),
            AttemptProgress::Finished(outcome) => AttemptProgress::Finished(outcome),
        }
    }
}

/// An attempt begins by connecting to the service's socket.
pub open spec fn attempt_start<Stream, Conn, E>(socket_path: Seq<u8>) -> AttemptProgress<
    Seq<u8>,
    Stream,
    Conn,
    E,
> {
    AttemptProgress::Ongoing(
        AttemptStage::Connecting,
        AttemptAction::Connect { path: socket_path },
    )
}

/// A stream is wrapped; a failure to get one ends the attempt, and so does the wrapping, whichever
/// way it comes out.
pub open spec fn attempt_next<Stream, Conn, E>(
    event: AttemptEvent<Stream, Conn, E>,
) -> AttemptProgress<Seq<u8>, Stream, Conn, E> {
    match event {
        AttemptEvent::Connected(Ok(stream)) => AttemptProgress::Ongoing(
            AttemptStage::Wrapping,
            AttemptAction::Wrap { stream },
        ),
        AttemptEvent::Connected(Err(error)) => AttemptProgress::Finished(Err(error)),
        AttemptEvent::Wrapped(outcome) => AttemptProgress::Finished(outcome),
    }
}

/// Start an attempt at the socket at `socket_path`.
pub fn begin_attempt<Stream, Conn, E>(socket_path: &[u8]) -> (progress: AttemptProgress<
    Vec<u8>,
    Stream,
    Conn,
    E,
>)
    ensures
        progress@ == attempt_start::<Stream, Conn, E>(socket_path@),
{
    AttemptProgress::Ongoing(
        AttemptStage::Connecting,
        AttemptAction::Connect { path: slice_to_vec(socket_path) },
    )
}

impl AttemptStage {
    /// Whether `event` answers what an attempt at this stage waits for.
    pub open spec fn expects<Stream, Conn, E>(self, event: AttemptEvent<Stream, Conn, E>) -> bool {
        match self {
            AttemptStage::Connecting => event is Connected,
            AttemptStage::Wrapping => event is Wrapped,
        }
    }

    /// Whether `event` answers what an attempt at this stage waits for.
    pub fn awaits<Stream, Conn, E>(&self, event: &AttemptEvent<Stream, Conn, E>) -> (answers: bool)
        ensures
            answers == self.expects(*event),
    {
        match (self, event) {
            (AttemptStage::Connecting, AttemptEvent::Connected(_)) => true,
            (AttemptStage::Wrapping, AttemptEvent::Wrapped(_)) => true,
            _ => false,
        }
    }

    /// Go on with the answer to the last action.
    pub fn step<Stream, Conn, E>(
        self,
        event: AttemptEvent<Stream, Conn, E>,
    ) -> (progress: AttemptProgress<Vec<u8>, Stream, Conn, E>)
        requires
            self.expects(event),
        ensures
            progress@ == attempt_next(event),
    {
        match event {
            AttemptEvent::Connected(Ok(stream)) => AttemptProgress::Ongoing(
                AttemptStage::Wrapping,
                AttemptAction::Wrap { stream },
            ),
            AttemptEvent::Connected(Err(error)) => AttemptProgress::Finished(Err(error)),
            AttemptEvent::Wrapped(outcome) => AttemptProgress::Finished(outcome),
        }
    }
}

/// An attempt asks for a stream to exactly the path that it was given; a stream that it gets is
/// wrapped, and nothing else is; and what could not be had, or what the wrapping gave, is the
/// outcome.
pub proof fn law_attempt_steps<Stream, Conn, E>(
    socket_path: Seq<u8>,
    event: AttemptEvent<Stream, Conn, E>,
)
    ensures
        attempt_start::<Stream, Conn, E>(socket_path) == AttemptProgress::<
            Seq<u8>,
            Stream,
            Conn,
            E,
        >::Ongoing(AttemptStage::Connecting, (AttemptAction::Connect { path: socket_path })),
        match event {
            AttemptEvent::Connected(Ok(stream)) => attempt_next(event) == AttemptProgress::<
                Seq<u8>,
                Stream,
                Conn,
                E,
            >::Ongoing(AttemptStage::Wrapping, (AttemptAction::Wrap { stream })),
            AttemptEvent::Connected(Err(error)) => attempt_next(event) == AttemptProgress::<
                Seq<u8>,
                Stream,
                Conn,
                E,
            >::Finished(Err(error)),
            AttemptEvent::Wrapped(outcome) => attempt_next(event) == AttemptProgress::<
                Seq<u8>,
                Stream,
                Conn,
                E,
            >::Finished(outcome),
        },
{
}

/// An attempt waits for the answer to what it asked for last, and for no other.
pub proof fn law_attempt_awaits<Stream, Conn, E>(
    stage: AttemptStage,
    event: AttemptEvent<Stream, Conn, E>,
)
    ensures
        stage.expects(event) <==> match (stage, event) {
            (AttemptStage::Connecting, AttemptEvent::Connected(_)) => true,
            (AttemptStage::Wrapping, AttemptEvent::Wrapped(_)) => true,
            _ => false,
        },
{
}

/// The values of an attempt are seen as they are, their paths byte for byte.
pub proof fn law_attempt_is_seen_whole<Stream, Conn, E>(
    action: AttemptAction<Vec<u8>, Stream>,
    progress: AttemptProgress<Vec<u8>, Stream, Conn, E>,
)
    ensures
        match action {
            AttemptAction::Connect { path } => action@ == AttemptAction::<
                Seq<u8>,
                Stream,
            >::Connect { path: path@ },
            AttemptAction::Wrap { stream } => action@ == AttemptAction::<
                Seq<u8>,
                Stream,
            >::Wrap { stream },
        },
        match progress {
            AttemptProgress::Ongoing(stage, action) => progress@ == AttemptProgress::<
                Seq<u8>,
                Stream,
                Conn,
                E,
            >::Ongoing(stage, action@),
            AttemptProgress::Finished(outcome) => progress@ == AttemptProgress::<
                Seq<u8>,
                Stream,
                Conn,
                E,
            >::Finished(outcome),
        },
{
}

} // verus!
