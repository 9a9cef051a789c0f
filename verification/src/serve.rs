//! Running the server of a service.
use crate::cleanable_path::{optional_cleanable, CleanablePathBuf};
use crate::notify::{
    notify_liveness_socket, notify_next, notify_start, NotifyAction, NotifyEvent, NotifyProgress,
    NotifyStage,
};
use crate::path::optional;
use vstd::prelude::*;
use vstd::slice::slice_to_vec;

verus! {

/// Where the run of a server stands. `P` is a path, `G` a path whose file is to be removed, and
/// `Out` what the server gives back.
#[derive(Debug, PartialEq, Eq)]
pub enum ServeStage<P, G, L, Out, E> {
    /// A listener at the service's socket was asked for.
    Binding { path: G, liveness_path: Option<P> },
    /// The socket exists, and the process that waits for that is being told.
    Notifying { path: G, listener: L, notify: NotifyStage },
    /// The listener is being wrapped for the server.
    Wrapping { path: G },
    /// The server runs.
    Running { path: G },
    /// The run is over, and the socket is being cleaned up.
    Removing { outcome: Result<Out, E> },
}

/// What the run of a server asks its driver to do next. `W` is a wrapped listener.
#[derive(Debug, PartialEq, Eq)]
pub enum ServeAction<P, G, S, L, W> {
    /// Bind a listener to `path`.
    Bind { path: P },
    /// Go on with the notification of the liveness socket.
    Notify(NotifyAction<P, S>),
    /// Wrap `listener` for the server.
    Wrap { listener: L },
    /// Run the server on `wrapper`.
    Run { wrapper: W },
    /// Remove the file at the path `cleanable`, if there is one.
    Remove { cleanable: G },
}

/// How a [`ServeAction`] came out.
#[derive(Debug, PartialEq, Eq)]
pub enum ServeEvent<S, L, W, Out, E> {
    /// The answer to [`ServeAction::Bind`].
    Bound(Result<L, E>),
    /// The answer to [`ServeAction::Notify`].
    Notify(NotifyEvent<S, E>),
    /// The answer to [`ServeAction::Wrap`].
    Wrapped(Result<W, E>),
    /// The answer to [`ServeAction::Run`].
    Ran(Result<Out, E>),
    /// The answer to [`ServeAction::Remove`].
    Removed,
}

/// The run of a server under way with its next action, or its outcome.
#[derive(Debug, PartialEq, Eq)]
pub enum ServeProgress<P, G, S, L, W, Out, E> {
    Ongoing(ServeStage<P, G, L, Out, E>, ServeAction<P, G, S, L, W>),
    Finished(Result<Out, E>),
}

/// An optional path as a byte sequence.
pub open spec fn optional_path(path: Option<Vec<u8>>) -> Option<Seq<u8>> {
    match path {
        Some(path) => Some(path@),
        None => None,
    }
}

impl<L, Out, E> View for ServeStage<Vec<u8>, CleanablePathBuf, L, Out, E> {
    type V = ServeStage<Seq<u8>, Seq<u8>, L, Out, E>;

    open spec fn view(&self) -> ServeStage<Seq<u8>, Seq<u8>, L, Out, E> {
        match *self {
            ServeStage::Binding { path, liveness_path } => ServeStage::Binding {
                path: path@,
                liveness_path: optional_path(liveness_path),
            },
            ServeStage::Notifying { path, listener, notify } => ServeStage::Notifying {
                path: path@,
                listener,
                notify,
            },
            ServeStage::Wrapping { path } => ServeStage::Wrapping { path: path@ },
            ServeStage::Running { path } => ServeStage::Running { path: path@ },
            ServeStage::Removing { outcome } => ServeStage::Removing { outcome },
        }
    }
}

impl<S, L, W> View for ServeAction<Vec<u8>, CleanablePathBuf, S, L, W> {
    type V = ServeAction<Seq<u8>, Seq<u8>, S, L, W>;

    open spec fn view(&self) -> ServeAction<Seq<u8>, Seq<u8>, S, L, W> {
        match *self {
            ServeAction::Bind { path } => ServeAction::Bind { path: path@ },
            ServeAction::Notify(action) => ServeAction::Notify(action@),
            ServeAction::Wrap { listener } => ServeAction::Wrap { listener },
            ServeAction::Run { wrapper } => ServeAction::Run { wrapper },
            ServeAction::Remove { cleanable } => ServeAction::Remove { cleanable: cleanable@ },
        }
    }
}

impl<S, L, W, Out, E> View for ServeProgress<Vec<u8>, CleanablePathBuf, S, L, W, Out, E> {
    type V = ServeProgress<Seq<u8>, Seq<u8>, S, L, W, Out, E>;

    open spec fn view(&self) -> ServeProgress<Seq<u8>, Seq<u8>, S, L, W, Out, E> {
        match *self {
            ServeProgress::Ongoing(stage, action) => ServeProgress::Ongoing(stage@, action@),
            ServeProgress::Finished(outcome) => ServeProgress::Finished(outcome),
        }
    }
}

impl<P, G, L, Out, E> ServeStage<P, G, L, Out, E> {
    /// Whether `event` answers what a run at this stage waits for.
    pub open spec fn expects<S, W>(self, event: ServeEvent<S, L, W, Out, E>) -> bool {
        match self {
            ServeStage::Binding { .. } => event is Bound,
            ServeStage::Notifying { notify, .. } => {
                event matches ServeEvent::Notify(answer) && notify.expects(answer)
            },
            ServeStage::Wrapping { .. } => event is Wrapped,
            ServeStage::Running { .. } => event is Ran,
            ServeStage::Removing { .. } => event is Removed,
        }
    }

    /// The path that is still to be cleaned up.
    pub open spec fn held(self) -> Option<G> {
        match self {
            ServeStage::Binding { path, .. } => Some(path),
            ServeStage::Notifying { path, .. } => Some(path),
            ServeStage::Wrapping { path } => Some(path),
            ServeStage::Running { path } => Some(path),
            ServeStage::Removing { .. } => None,
        }
    }
}

/// A run begins by binding a listener to the service's socket.
pub open spec fn serve_start<S, L, W, Out, E>(
    path: Seq<u8>,
    liveness_path: Option<Seq<u8>>,
) -> ServeProgress<Seq<u8>, Seq<u8>, S, L, W, Out, E> {
    ServeProgress::Ongoing(
        ServeStage::Binding { path, liveness_path },
        ServeAction::Bind { path },
    )
}

/// Once the listener is bound, the liveness socket is notified if there is one, whatever comes of
/// it; then the listener is wrapped, and the server runs. The end of the run is its outcome, and a
/// failure to bind or to wrap is; the socket is cleaned up before any of them.
pub open spec fn serve_next<S, L, W, Out, E>(
    stage: ServeStage<Seq<u8>, Seq<u8>, L, Out, E>,
    event: ServeEvent<S, L, W, Out, E>,
) -> ServeProgress<Seq<u8>, Seq<u8>, S, L, W, Out, E> {
    match (stage, event) {
        (ServeStage::Binding { path, .. }, ServeEvent::Bound(Err(error))) => {
            serve_removing(path, Err(error))
        },
        (
            ServeStage::Binding { path, liveness_path: Some(liveness_path) },
            ServeEvent::Bound(Ok(listener)),
        ) => serve_notifying(path, listener, notify_start(liveness_path)),
        (
            ServeStage::Binding { path, liveness_path: None },
            ServeEvent::Bound(Ok(listener)),
        ) => serve_wrapping(path, listener),
        (ServeStage::Notifying { path, listener, .. }, ServeEvent::Notify(answer)) => {
            serve_notifying(path, listener, notify_next(answer))
        },
        (ServeStage::Wrapping { path }, ServeEvent::Wrapped(Ok(wrapper))) => {
            ServeProgress::Ongoing(ServeStage::Running { path }, ServeAction::Run { wrapper })
        },
        (ServeStage::Wrapping { path }, ServeEvent::Wrapped(Err(error))) => {
            serve_removing(path, Err(error))
        },
        (ServeStage::Running { path }, ServeEvent::Ran(outcome)) => serve_removing(path, outcome),
        (ServeStage::Removing { outcome }, _) => ServeProgress::Finished(outcome),
        _ => arbitrary(),
    }
}

/// The notification of the liveness socket as a part of a run: its outcome is not looked at.
pub open spec fn serve_notifying<S, L, W, Out, E>(
    path: Seq<u8>,
    listener: L,
    notify: NotifyProgress<Seq<u8>, S, E>,
) -> ServeProgress<Seq<u8>, Seq<u8>, S, L, W, Out, E> {
    match notify {
        NotifyProgress::Ongoing(stage, action) => ServeProgress::Ongoing(
            ServeStage::Notifying { path, listener, notify: stage },
            ServeAction::Notify(action),
        ),
        NotifyProgress::Finished(_) => serve_wrapping(path, listener),
    }
}

/// The wrapping of the listener as a part of a run.
pub open spec fn serve_wrapping<S, L, W, Out, E>(
    path: Seq<u8>,
    listener: L,
) -> ServeProgress<Seq<u8>, Seq<u8>, S, L, W, Out, E> {
    ServeProgress::Ongoing(ServeStage::Wrapping { path }, ServeAction::Wrap { listener })
}

/// The cleanup of the socket as a part of a run.
pub open spec fn serve_removing<S, L, W, Out, E>(
    path: Seq<u8>,
    outcome: Result<Out, E>,
) -> ServeProgress<Seq<u8>, Seq<u8>, S, L, W, Out, E> {
    ServeProgress::Ongoing(
        ServeStage::Removing { outcome },
        ServeAction::Remove { cleanable: path },
    )
}

fn clean_up<S, L, W, Out, E>(path: CleanablePathBuf, outcome: Result<Out, E>) -> (progress:
    ServeProgress<Vec<u8>, CleanablePathBuf, S, L, W, Out, E>)
    ensures
        progress@ == serve_removing::<S, L, W, Out, E>(path@, outcome),
{
    ServeProgress::Ongoing(
        ServeStage::Removing { outcome },
        ServeAction::Remove { cleanable: path },
    )
}

fn go_on_notifying<S, L, W, Out, E>(
    path: CleanablePathBuf,
    listener: L,
    notify: NotifyProgress<Vec<u8>, S, E>,
) -> (progress: ServeProgress<Vec<u8>, CleanablePathBuf, S, L, W, Out, E>)
    ensures
        progress@ == serve_notifying::<S, L, W, Out, E>(path@, listener, notify@),
{
    match notify {
        NotifyProgress::Ongoing(stage, action) => ServeProgress::Ongoing(
            ServeStage::Notifying { path, listener, notify: stage },
            ServeAction::Notify(action),
        ),
        NotifyProgress::Finished(_) => ServeProgress::Ongoing(
            ServeStage::Wrapping { path },
            ServeAction::Wrap { listener },
        ),
    }
}

/// Start to run a server at the socket at `socket_path`, for a process that waits for a ping at
/// `liveness_path` if there is one.
pub fn begin_serving<S, L, W, Out, E>(
    socket_path: Vec<u8>,
    liveness_path: Option<&[u8]>,
) -> (progress: ServeProgress<Vec<u8>, CleanablePathBuf, S, L, W, Out, E>)
    ensures
        progress@ == serve_start::<S, L, W, Out, E>(socket_path@, optional(liveness_path)),
        progress matches ServeProgress::Ongoing(
            ServeStage::Binding { path: kept, liveness_path: told },
            ServeAction::Bind { path: bound },
        ) && kept@ == socket_path@ && bound@ == socket_path@ && match liveness_path {
            Some(liveness_path) => told matches Some(seen) && seen@ == liveness_path@,
            None => told is None,
        },
{
    let copy = slice_to_vec(socket_path.as_slice());
    let path = CleanablePathBuf::new(socket_path);
    let liveness_path = match liveness_path {
        Some(path) => Some(slice_to_vec(path)),
        None => None,
    };
    ServeProgress::Ongoing(
        ServeStage::Binding { path, liveness_path },
        ServeAction::Bind { path: copy },
    )
}

impl<L, Out, E> ServeStage<Vec<u8>, CleanablePathBuf, L, Out, E> {
    /// Whether `event` answers what a run at this stage waits for.
    pub fn awaits<S, W>(&self, event: &ServeEvent<S, L, W, Out, E>) -> (answers: bool)
        ensures
            answers == self.expects(*event),
    {
        match (self, event) {
            (ServeStage::Binding { .. }, ServeEvent::Bound(_)) => true,
            (ServeStage::Notifying { notify, .. }, ServeEvent::Notify(answer)) => {
                notify.awaits(answer)
            },
            (ServeStage::Wrapping { .. }, ServeEvent::Wrapped(_)) => true,
            (ServeStage::Running { .. }, ServeEvent::Ran(_)) => true,
            (ServeStage::Removing { .. }, ServeEvent::Removed) => true,
            _ => false,
        }
    }

    /// Give the run up where it stands. The path that is still to be cleaned up, if there is one,
    /// is handed back.
    pub fn give_up(self) -> (path: Option<CleanablePathBuf>)
        ensures
            optional_cleanable(path) == self@.held(),
    {
        match self {
            ServeStage::Binding { path, liveness_path: _ } => Some(path),
            ServeStage::Notifying { path, listener: _, notify: _ } => Some(path),
            ServeStage::Wrapping { path } => Some(path),
            ServeStage::Running { path } => Some(path),
            ServeStage::Removing { outcome: _ } => None,
        }
    }

    /// Go on with the answer to the last action.
    pub fn step<S, W>(self, event: ServeEvent<S, L, W, Out, E>) -> (progress: ServeProgress<
        Vec<u8>,
        CleanablePathBuf,
        S,
        L,
        W,
        Out,
        E,
    >)
        requires
            self.expects(event),
        ensures
            progress@ == serve_next(self@, event),
    {
        match (self, event) {
            (ServeStage::Binding { path, liveness_path: _ }, ServeEvent::Bound(Err(error))) => {
                clean_up(path, Err(error))
            },
            (
                ServeStage::Binding { path, liveness_path: Some(liveness_path) },
                ServeEvent::Bound(Ok(listener)),
            ) => {
                let start = notify_liveness_socket(liveness_path.as_slice());
                go_on_notifying(path, listener, start)
            },
            (
                ServeStage::Binding { path, liveness_path: None },
                ServeEvent::Bound(Ok(listener)),
            ) => ServeProgress::Ongoing(
                ServeStage::Wrapping { path },
                ServeAction::Wrap { listener },
            ),
            (
                ServeStage::Notifying { path, listener, notify: stage },
                ServeEvent::Notify(answer),
            ) => go_on_notifying(path, listener, stage.step(answer)),
            (ServeStage::Wrapping { path }, ServeEvent::Wrapped(Ok(wrapper))) => {
                ServeProgress::Ongoing(ServeStage::Running { path }, ServeAction::Run { wrapper })
            },
            (ServeStage::Wrapping { path }, ServeEvent::Wrapped(Err(error))) => {
                clean_up(path, Err(error))
            },
            (ServeStage::Running { path }, ServeEvent::Ran(outcome)) => clean_up(path, outcome),
            (ServeStage::Removing { outcome }, _) => ServeProgress::Finished(outcome),
            _ => {
                assert(false);
                vstd::pervasive::unreached()
            },
        }
    }
}

/// A run binds exactly the path that it was given. If a liveness path was given, of whatever
/// length, exactly that is pinged once the listener is bound; otherwise the listener is wrapped at
/// once.
pub proof fn law_given_liveness_path_is_pinged<S, L, W, Out, E>(
    path: Seq<u8>,
    liveness_path: &[u8],
    listener: L,
)
    ensures
        ({
            let given: ServeProgress<Seq<u8>, Seq<u8>, S, L, W, Out, E> = serve_start(
                path,
                optional(Some(liveness_path)),
            );
            let none: ServeProgress<Seq<u8>, Seq<u8>, S, L, W, Out, E> = serve_start(
                path,
                optional(None),
            );
            let bound: ServeEvent<S, L, W, Out, E> = ServeEvent::Bound(Ok(listener));
            &&& given matches ServeProgress::Ongoing(stage, ServeAction::Bind { path: at })
            &&& at == path
            &&& serve_next(stage, bound) matches ServeProgress::Ongoing(
                ServeStage::Notifying { path: kept, listener: on, notify: NotifyStage::Connecting },
                ServeAction::Notify(NotifyAction::Connect { path: pinged }),
            )
            &&& kept == path && on == listener && pinged == liveness_path@
            &&& none matches ServeProgress::Ongoing(alone, ServeAction::Bind { path: there })
            &&& there == path
            &&& serve_next(alone, bound) matches ServeProgress::Ongoing(
                ServeStage::Wrapping { path: held },
                ServeAction::Wrap { listener: wrapped },
            )
            &&& held == path && wrapped == listener
        }),
{
}

/// How the run of a server goes on: exactly the liveness path is pinged and the stream of the ping
/// shut down, and whatever comes of either, exactly the listener that was bound is wrapped; the
/// server runs on exactly what that gave. What it gives back is the outcome, as is a failure to
/// bind or to wrap, after exactly the path that was bound was removed.
pub proof fn law_serve_steps<S, L, W, Out, E>(
    path: Seq<u8>,
    liveness_path: Option<Seq<u8>>,
    stage: ServeStage<Seq<u8>, Seq<u8>, L, Out, E>,
    event: ServeEvent<S, L, W, Out, E>,
)
    ensures
        serve_start::<S, L, W, Out, E>(path, liveness_path) matches ServeProgress::Ongoing(
            ServeStage::Binding { path: kept, liveness_path: told },
            ServeAction::Bind { path: bound },
        ) && kept == path && bound == path && told == liveness_path,
        ({
            let next = serve_next(stage, event);
            match (stage, event) {
                (ServeStage::Binding { path, .. }, ServeEvent::Bound(Err(error))) => {
                    next matches ServeProgress::Ongoing(
                        ServeStage::Removing { outcome },
                        ServeAction::Remove { cleanable },
                    ) && cleanable == path && outcome == Err::<Out, E>(error)
                },
                (
                    ServeStage::Binding { path, liveness_path: Some(to) },
                    ServeEvent::Bound(Ok(listener)),
                ) => next matches ServeProgress::Ongoing(
                    ServeStage::Notifying {
                        path: kept,
                        listener: on,
                        notify: NotifyStage::Connecting,
                    },
                    ServeAction::Notify(NotifyAction::Connect { path: pinged }),
                ) && kept == path && on == listener && pinged == to,
                (
                    ServeStage::Binding { path, liveness_path: None },
                    ServeEvent::Bound(Ok(listener)),
                ) => next matches ServeProgress::Ongoing(
                    ServeStage::Wrapping { path: kept },
                    ServeAction::Wrap { listener: wrapped },
                ) && kept == path && wrapped == listener,
                (
                    ServeStage::Notifying { path, listener, .. },
                    ServeEvent::Notify(NotifyEvent::Connected(Ok(stream))),
                ) => next matches ServeProgress::Ongoing(
                    ServeStage::Notifying {
                        path: kept,
                        listener: on,
                        notify: NotifyStage::ShuttingDown,
                    },
                    ServeAction::Notify(NotifyAction::Shutdown { stream: shut }),
                ) && kept == path && on == listener && shut == stream,
                (ServeStage::Notifying { path, listener, .. }, ServeEvent::Notify(_)) => {
                    next matches ServeProgress::Ongoing(
                        ServeStage::Wrapping { path: kept },
                        ServeAction::Wrap { listener: wrapped },
                    ) && kept == path && wrapped == listener
                },
                (ServeStage::Wrapping { path }, ServeEvent::Wrapped(Ok(wrapper))) => {
                    next matches ServeProgress::Ongoing(
                        ServeStage::Running { path: kept },
                        ServeAction::Run { wrapper: run },
                    ) && kept == path && run == wrapper
                },
                (ServeStage::Wrapping { path }, ServeEvent::Wrapped(Err(error))) => {
                    next matches ServeProgress::Ongoing(
                        ServeStage::Removing { outcome },
                        ServeAction::Remove { cleanable },
                    ) && cleanable == path && outcome == Err::<Out, E>(error)
                },
                (ServeStage::Running { path }, ServeEvent::Ran(result)) => {
                    next matches ServeProgress::Ongoing(
                        ServeStage::Removing { outcome },
                        ServeAction::Remove { cleanable },
                    ) && cleanable == path && outcome == result
                },
                (ServeStage::Removing { outcome }, ServeEvent::Removed) => {
                    next matches ServeProgress::Finished(result) && result == outcome
                },
                _ => true,
            }
        }),
{
}

/// A run waits for the answer to what it asked for last, and for no other. What it holds to be
/// cleaned up is the path that it was given, until the removal of that is asked for.
pub proof fn law_serve_awaits<P, G, S, L, W, Out, E>(
    stage: ServeStage<P, G, L, Out, E>,
    event: ServeEvent<S, L, W, Out, E>,
)
    ensures
        stage.expects(event) <==> match (stage, event) {
            (ServeStage::Binding { .. }, ServeEvent::Bound(_)) => true,
            (ServeStage::Notifying { notify, .. }, ServeEvent::Notify(answer)) => {
                notify.expects(answer)
            },
            (ServeStage::Wrapping { .. }, ServeEvent::Wrapped(_)) => true,
            (ServeStage::Running { .. }, ServeEvent::Ran(_)) => true,
            (ServeStage::Removing { .. }, ServeEvent::Removed) => true,
            _ => false,
        },
        match stage {
            ServeStage::Binding { path, .. } => stage.held() == Some(path),
            ServeStage::Notifying { path, .. } => stage.held() == Some(path),
            ServeStage::Wrapping { path } => stage.held() == Some(path),
            ServeStage::Running { path } => stage.held() == Some(path),
            ServeStage::Removing { .. } => stage.held() is None,
        },
{
}

/// The values of a run are seen as they are, their paths byte for byte.
pub proof fn law_serve_is_seen_whole<S, L, W, Out, E>(
    stage: ServeStage<Vec<u8>, CleanablePathBuf, L, Out, E>,
    action: ServeAction<Vec<u8>, CleanablePathBuf, S, L, W>,
    progress: ServeProgress<Vec<u8>, CleanablePathBuf, S, L, W, Out, E>,
)
    ensures
        match stage {
            ServeStage::Binding { path, liveness_path } => {
                stage@ matches ServeStage::Binding { path: seen, liveness_path: told } && seen
                    == path@ && match liveness_path {
                    Some(liveness_path) => told == Some(liveness_path@),
                    None => told is None,
                }
            },
            ServeStage::Notifying { path, listener, notify } => {
                stage@ matches ServeStage::Notifying { path: seen, listener: on, notify: at }
                    && seen == path@ && on == listener && at == notify
            },
            ServeStage::Wrapping { path } => stage@ matches ServeStage::Wrapping { path: seen }
                && seen == path@,
            ServeStage::Running { path } => stage@ matches ServeStage::Running { path: seen }
                && seen == path@,
            ServeStage::Removing { outcome } => stage@ matches ServeStage::Removing {
                outcome: seen,
            } && seen == outcome,
        },
        match action {
            ServeAction::Bind { path } => action@ matches ServeAction::Bind { path: seen } && seen
                == path@,
            ServeAction::Notify(part) => action@ matches ServeAction::Notify(seen) && seen == part@,
            ServeAction::Wrap { listener } => action@ matches ServeAction::Wrap { listener: seen }
                && seen == listener,
            ServeAction::Run { wrapper } => action@ matches ServeAction::Run { wrapper: seen }
                && seen == wrapper,
            ServeAction::Remove { cleanable } => action@ matches ServeAction::Remove {
                cleanable: seen,
            } && seen == cleanable@,
        },
        match progress {
            ServeProgress::Ongoing(now, asked) => progress@ matches ServeProgress::Ongoing(
                seen,
                seen_action,
            ) && seen == now@ && seen_action == asked@,
            ServeProgress::Finished(outcome) => progress@ matches ServeProgress::Finished(seen)
                && seen == outcome,
        },
{
}

} // verus!
