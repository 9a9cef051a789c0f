//! Connecting to a service, and starting it first where that is necessary.
use crate::attempt::{
    attempt_next, attempt_start, begin_attempt, AttemptAction, AttemptEvent, AttemptProgress,
    AttemptStage,
};
use crate::check::{
    check_next, check_start, ephemeral_liveness_socket_check_with_timeout, CheckAction, CheckEvent,
    CheckProgress, CheckStage,
};
use crate::cleanable_path::{optional_cleanable, CleanablePathBuf};
use crate::cleanup::{
    begin_cleanup, cleanup_next, cleanup_start, CleanupAction, CleanupEvent, CleanupProgress,
    CleanupStage,
};
use crate::create::{
    create_next, create_start, ephemeral_liveness_socket_create, CreateAction, CreateEvent,
    CreateProgress, CreateStage,
};
use crate::error::ServiceError;
use crate::sockpath::{ephemeral_path, is_drawn};
use crate::timeout::LivenessTimeout;
use vstd::prelude::*;
use vstd::slice::slice_to_vec;

verus! {

/// Where connecting to a service stands.
#[derive(Debug, PartialEq, Eq)]
pub enum ConnectStage<G, L, K, E> {
    /// The first attempt, at a service that may be running.
    First(AttemptStage),
    /// The ephemeral liveness socket is being created.
    Creating(CreateStage<G, E>),
    /// The service is being started.
    Spawning { listener: L, path: G },
    /// The service could not be started, and the ephemeral socket is being given up.
    Abandoning(CleanupStage<L, ServiceError<E>>),
    /// The service was started as `child` and has to report that it is live.
    Checking { child: K, check: CheckStage<G, L, E> },
    /// The service is live, and its process is being handed over.
    HandingOver,
    /// The second attempt, at the service that was started.
    Second(AttemptStage),
}

/// What a connection was asked for. `P` is a path and `C` a component of the executor prefix.
#[derive(Debug, PartialEq, Eq)]
pub struct ConnectRequest<'a, P, C> {
    /// Where the service has its socket.
    pub socket_path: P,
    /// What to put before the command that starts the service.
    pub executor_prefix: Option<&'a [C]>,
    /// How long a service that was started may take to report that it is live.
    pub liveness_timeout: LivenessTimeout,
}

/// A connection in the making: what it was asked for, and where it stands. `G` is a path to clean
/// up, `L` a listener and `K` a process.
#[derive(Debug, PartialEq, Eq)]
pub struct Connecting<'a, P, G, C, L, K, E> {
    pub request: ConnectRequest<'a, P, C>,
    pub stage: ConnectStage<G, L, K, E>,
}

/// What a connection in the making asks its driver to do next.
#[derive(Debug, PartialEq, Eq)]
pub enum ConnectAction<'a, P, G, C, S, L, K> {
    /// Go on with an attempt to connect.
    Attempt(AttemptAction<P, S>),
    /// Go on with the creation of the ephemeral socket.
    Create(CreateAction<P, G>),
    /// Run the command that starts the service, behind the executor prefix, and tell it of the
    /// ephemeral socket at `liveness_path`.
    Spawn { executor_prefix: Option<&'a [C]>, liveness_path: P },
    /// Dispose of a part of the ephemeral socket.
    Cleanup(CleanupAction<G, L>),
    /// Go on with the wait for the liveness ping.
    Check(CheckAction<G, L, S>),
    /// Do what is to be done with the process of a service that has become live.
    HandOver { child: K },
}

/// How a [`ConnectAction`] came out.
#[derive(Debug, PartialEq, Eq)]
pub enum ConnectEvent<P, S, A, L, K, Conn, E> {
    /// The answer to [`ConnectAction::Attempt`].
    Attempt(AttemptEvent<S, Conn, E>),
    /// The answer to [`ConnectAction::Create`].
    Create(CreateEvent<P, L, E>),
    /// The answer to [`ConnectAction::Spawn`].
    Spawned(Result<K, E>),
    /// The answer to [`ConnectAction::Cleanup`].
    Cleaned(CleanupEvent),
    /// The answer to [`ConnectAction::Check`].
    Check(CheckEvent<L, S, A, E>),
    /// The answer to [`ConnectAction::HandOver`].
    HandedOver(Result<(), E>),
}

/// A connection in the making with its next action, or the outcome.
#[derive(Debug, PartialEq, Eq)]
pub enum ConnectProgress<'a, P, G, C, S, L, K, Conn, E> {
    Ongoing(Connecting<'a, P, G, C, L, K, E>, ConnectAction<'a, P, G, C, S, L, K>),
    Finished(Result<Conn, ServiceError<E>>),
}

impl<L, K, E> View for ConnectStage<CleanablePathBuf, L, K, E> {
    type V = ConnectStage<Seq<u8>, L, K, E>;

    open spec fn view(&self) -> ConnectStage<Seq<u8>, L, K, E> {
        match *self {
            ConnectStage::First(stage) => ConnectStage::First(stage),
            ConnectStage::Creating(stage) => ConnectStage::Creating(stage@),
            ConnectStage::Spawning { listener, path } => ConnectStage::Spawning {
                listener,
                path: path@,
            },
            ConnectStage::Abandoning(stage) => ConnectStage::Abandoning(stage),
            ConnectStage::Checking { child, check } => ConnectStage::Checking {
                child,
                check: check@,
            },
            ConnectStage::HandingOver => ConnectStage::HandingOver,
            ConnectStage::Second(stage) => ConnectStage::Second(stage),
        }
    }
}

impl<'a, C> View for ConnectRequest<'a, Vec<u8>, C> {
    type V = ConnectRequest<'a, Seq<u8>, C>;

    open spec fn view(&self) -> ConnectRequest<'a, Seq<u8>, C> {
        ConnectRequest {
            socket_path: self.socket_path@,
            executor_prefix: self.executor_prefix,
            liveness_timeout: self.liveness_timeout,
        }
    }
}

impl<'a, C, L, K, E> View for Connecting<'a, Vec<u8>, CleanablePathBuf, C, L, K, E> {
    type V = Connecting<'a, Seq<u8>, Seq<u8>, C, L, K, E>;

    open spec fn view(&self) -> Connecting<'a, Seq<u8>, Seq<u8>, C, L, K, E> {
        Connecting { request: self.request@, stage: self.stage@ }
    }
}

impl<'a, C, S, L, K> View for ConnectAction<'a, Vec<u8>, CleanablePathBuf, C, S, L, K> {
    type V = ConnectAction<'a, Seq<u8>, Seq<u8>, C, S, L, K>;

    open spec fn view(&self) -> ConnectAction<'a, Seq<u8>, Seq<u8>, C, S, L, K> {
        match *self {
            ConnectAction::Attempt(action) => ConnectAction::Attempt(action@),
            ConnectAction::Create(action) => ConnectAction::Create(action@),
            ConnectAction::Spawn { executor_prefix, liveness_path } => ConnectAction::Spawn {
                executor_prefix,
                liveness_path: liveness_path@,
            },
            ConnectAction::Cleanup(action) => ConnectAction::Cleanup(action@),
            ConnectAction::Check(action) => ConnectAction::Check(action@),
            ConnectAction::HandOver { child } => ConnectAction::HandOver { child },
        }
    }
}

impl<S, A, L, K, Conn, E> View for ConnectEvent<Vec<u8>, S, A, L, K, Conn, E> {
    type V = ConnectEvent<Seq<u8>, S, A, L, K, Conn, E>;

    open spec fn view(&self) -> ConnectEvent<Seq<u8>, S, A, L, K, Conn, E> {
        match *self {
            ConnectEvent::Attempt(event) => ConnectEvent::Attempt(event),
            ConnectEvent::Create(event) => ConnectEvent::Create(event@),
            ConnectEvent::Spawned(spawned) => ConnectEvent::Spawned(spawned),
            ConnectEvent::Cleaned(event) => ConnectEvent::Cleaned(event),
            ConnectEvent::Check(event) => ConnectEvent::Check(event),
            ConnectEvent::HandedOver(handed) => ConnectEvent::HandedOver(handed),
        }
    }
}

impl<'a, C, S, L, K, Conn, E> View for ConnectProgress<
    'a,
    Vec<u8>,
    CleanablePathBuf,
    C,
    S,
    L,
    K,
    Conn,
    E,
> {
    type V = ConnectProgress<'a, Seq<u8>, Seq<u8>, C, S, L, K, Conn, E>;

    open spec fn view(&self) -> ConnectProgress<'a, Seq<u8>, Seq<u8>, C, S, L, K, Conn, E> {
        match *self {
            ConnectProgress::Ongoing(connecting, action) => ConnectProgress::Ongoing(
                connecting@,
                action@,
            ),
            ConnectProgress::Finished(outcome) => ConnectProgress::Finished(outcome),
        }
    }
}

impl<'a, P, G, C, L, K, E> Connecting<'a, P, G, C, L, K, E> {
    /// Whether `event` answers what the connection waits for.
    pub open spec fn expects<S, A, Conn>(
        self,
        event: ConnectEvent<P, S, A, L, K, Conn, E>,
    ) -> bool {
        match self.stage {
            ConnectStage::First(stage) | ConnectStage::Second(stage) => {
                event matches ConnectEvent::Attempt(answer) && stage.expects(answer)
            },
            ConnectStage::Creating(stage) => {
                event matches ConnectEvent::Create(answer) && stage.expects(answer)
            },
            ConnectStage::Spawning { .. } => event is Spawned,
            ConnectStage::Abandoning(stage) => {
                event matches ConnectEvent::Cleaned(answer) && stage.expects(answer)
            },
            ConnectStage::Checking { check, .. } => {
                event matches ConnectEvent::Check(answer) && check.expects(answer)
            },
            ConnectStage::HandingOver => event is HandedOver,
        }
    }

    /// The path that is still to be cleaned up.
    pub open spec fn held(self) -> Option<G> {
        match self.stage {
            ConnectStage::Creating(stage) => stage.held(),
            ConnectStage::Spawning { path, .. } => Some(path),
            ConnectStage::Checking { check, .. } => check.held(),
            _ => None,
        }
    }
}

/// A connection begins with an attempt at a service that may be running.
pub open spec fn connect_start<'a, C, S, L, K, Conn, E>(
    request: ConnectRequest<'a, Seq<u8>, C>,
) -> ConnectProgress<'a, Seq<u8>, Seq<u8>, C, S, L, K, Conn, E> {
    connect_first(request, attempt_start(request.socket_path))
}

/// The first attempt as a part of a connection.
pub open spec fn connect_first<'a, C, S, L, K, Conn, E>(
    request: ConnectRequest<'a, Seq<u8>, C>,
    attempt: AttemptProgress<Seq<u8>, S, Conn, E>,
) -> ConnectProgress<'a, Seq<u8>, Seq<u8>, C, S, L, K, Conn, E> {
    match attempt {
        AttemptProgress::Ongoing(stage, action) => ConnectProgress::Ongoing(
            Connecting { request, stage: ConnectStage::First(stage) },
            ConnectAction::Attempt(action),
        ),
        AttemptProgress::Finished(Ok(connection)) => ConnectProgress::Finished(Ok(connection)),
        AttemptProgress::Finished(Err(error)) => ConnectProgress::Finished(
            Err(ServiceError::Io(error)),
        ),
    }
}

/// A connection goes on with the step of the part that it is at; at the end of a part:
///
/// - a first attempt that got no stream, so that the service is not running, is followed by the
///   creation of the ephemeral socket;
/// - then the service is started, behind the executor prefix and with the ephemeral socket's path;
/// - then it has to report on the ephemeral socket in time;
/// - then its process is handed over;
/// - then comes the second attempt, whose outcome is the outcome of the whole.
///
/// An attempt that succeeds ends it. So does a failure of any other part, that of a start only
/// after the ephemeral socket was given up, and so does a failure to wrap the stream of the first
/// attempt: a service that can be connected to is running, and is not started.
pub open spec fn connect_next<'a, C, S, A, L, K, Conn, E>(
    connecting: Connecting<'a, Seq<u8>, Seq<u8>, C, L, K, E>,
    event: ConnectEvent<Seq<u8>, S, A, L, K, Conn, E>,
    number: u64,
) -> ConnectProgress<'a, Seq<u8>, Seq<u8>, C, S, L, K, Conn, E> {
    let request = connecting.request;
    match (connecting.stage, event) {
        (ConnectStage::First(_), ConnectEvent::Attempt(AttemptEvent::Connected(Err(_)))) => {
            connect_creating(request, create_start())
        },
        (ConnectStage::First(_), ConnectEvent::Attempt(answer)) => connect_first(
            request,
            attempt_next(answer),
        ),
        (ConnectStage::Creating(stage), ConnectEvent::Create(answer)) => {
            connect_creating(request, create_next(stage, answer, number))
        },
        (ConnectStage::Spawning { listener, path }, ConnectEvent::Spawned(Ok(child))) => {
            connect_checking(
                request,
                child,
                check_start(listener, path, request.liveness_timeout),
            )
        },
        (ConnectStage::Spawning { listener, path }, ConnectEvent::Spawned(Err(error))) => {
            connect_abandoning(request, cleanup_start(listener, path, ServiceError::Io(error)))
        },
        (ConnectStage::Abandoning(stage), ConnectEvent::Cleaned(_)) => {
            connect_abandoning(request, cleanup_next(stage))
        },
        (ConnectStage::Checking { child, check }, ConnectEvent::Check(answer)) => {
            connect_checking(request, child, check_next(check, answer))
        },
        (ConnectStage::HandingOver, ConnectEvent::HandedOver(Ok(()))) => connect_second(
            request,
            attempt_start(request.socket_path),
        ),
        (ConnectStage::HandingOver, ConnectEvent::HandedOver(Err(error))) => {
            ConnectProgress::Finished(Err(ServiceError::Io(error)))
        },
        (ConnectStage::Second(_), ConnectEvent::Attempt(answer)) => {
            connect_second(request, attempt_next(answer))
        },
        _ => arbitrary(),
    }
}

/// The creation of the ephemeral socket as a part of a connection.
pub open spec fn connect_creating<'a, C, S, L, K, Conn, E>(
    request: ConnectRequest<'a, Seq<u8>, C>,
    create: CreateProgress<Seq<u8>, Seq<u8>, L, E>,
) -> ConnectProgress<'a, Seq<u8>, Seq<u8>, C, S, L, K, Conn, E> {
    match create {
        CreateProgress::Ongoing(stage, action) => ConnectProgress::Ongoing(
            Connecting { request, stage: ConnectStage::Creating(stage) },
            ConnectAction::Create(action),
        ),
        CreateProgress::Finished(Ok((listener, path))) => ConnectProgress::Ongoing(
            Connecting { request, stage: ConnectStage::Spawning { listener, path } },
            ConnectAction::Spawn {
                executor_prefix: request.executor_prefix,
                liveness_path: path,
            },
        ),
        CreateProgress::Finished(Err(error)) => ConnectProgress::Finished(
            Err(ServiceError::Io(error)),
        ),
    }
}

/// The disposal of the ephemeral socket as a part of a connection.
pub open spec fn connect_abandoning<'a, C, S, L, K, Conn, E>(
    request: ConnectRequest<'a, Seq<u8>, C>,
    cleanup: CleanupProgress<Seq<u8>, L, ServiceError<E>>,
) -> ConnectProgress<'a, Seq<u8>, Seq<u8>, C, S, L, K, Conn, E> {
    match cleanup {
        CleanupProgress::Ongoing(stage, action) => ConnectProgress::Ongoing(
            Connecting { request, stage: ConnectStage::Abandoning(stage) },
            ConnectAction::Cleanup(action),
        ),
        CleanupProgress::Finished(error) => ConnectProgress::Finished(Err(error)),
    }
}

/// The wait for the liveness ping as a part of a connection.
pub open spec fn connect_checking<'a, C, S, L, K, Conn, E>(
    request: ConnectRequest<'a, Seq<u8>, C>,
    child: K,
    check: CheckProgress<Seq<u8>, L, S, E>,
) -> ConnectProgress<'a, Seq<u8>, Seq<u8>, C, S, L, K, Conn, E> {
    match check {
        CheckProgress::Ongoing(stage, action) => ConnectProgress::Ongoing(
            Connecting { request, stage: ConnectStage::Checking { child, check: stage } },
            ConnectAction::Check(action),
        ),
        CheckProgress::Finished(Ok(())) => ConnectProgress::Ongoing(
            Connecting { request, stage: ConnectStage::HandingOver },
            ConnectAction::HandOver { child },
        ),
        CheckProgress::Finished(Err(error)) => ConnectProgress::Finished(Err(error)),
    }
}

/// The second attempt as a part of a connection.
pub open spec fn connect_second<'a, C, S, L, K, Conn, E>(
    request: ConnectRequest<'a, Seq<u8>, C>,
    attempt: AttemptProgress<Seq<u8>, S, Conn, E>,
) -> ConnectProgress<'a, Seq<u8>, Seq<u8>, C, S, L, K, Conn, E> {
    match attempt {
        AttemptProgress::Ongoing(stage, action) => ConnectProgress::Ongoing(
            Connecting { request, stage: ConnectStage::Second(stage) },
            ConnectAction::Attempt(action),
        ),
        AttemptProgress::Finished(Ok(connection)) => ConnectProgress::Finished(Ok(connection)),
        AttemptProgress::Finished(Err(error)) => ConnectProgress::Finished(
            Err(ServiceError::Io(error)),
        ),
    }
}

/// Start to connect to the service whose socket is at `socket_path`.
pub fn begin_connect<'a, C, S, L, K, Conn, E>(
    socket_path: &[u8],
    executor_prefix: Option<&'a [C]>,
    liveness_timeout: LivenessTimeout,
) -> (progress: ConnectProgress<'a, Vec<u8>, CleanablePathBuf, C, S, L, K, Conn, E>)
    ensures
        progress@ == connect_start::<C, S, L, K, Conn, E>(
            (ConnectRequest { socket_path: socket_path@, executor_prefix, liveness_timeout }),
        ),
{
    let request = ConnectRequest {
        socket_path: slice_to_vec(socket_path),
        executor_prefix,
        liveness_timeout,
    };
    request.first(begin_attempt(socket_path))
}

impl<'a, C> ConnectRequest<'a, Vec<u8>, C> {
    fn first<S, L, K, Conn, E>(
        self,
        attempt: AttemptProgress<Vec<u8>, S, Conn, E>,
    ) -> (progress: ConnectProgress<'a, Vec<u8>, CleanablePathBuf, C, S, L, K, Conn, E>)
        ensures
            progress@ == connect_first::<C, S, L, K, Conn, E>(self@, attempt@),
    {
        match attempt {
            AttemptProgress::Ongoing(stage, action) => ConnectProgress::Ongoing(
                Connecting { request: self, stage: ConnectStage::First(stage) },
                ConnectAction::Attempt(action),
            ),
            AttemptProgress::Finished(Ok(connection)) => ConnectProgress::Finished(Ok(connection)),
            AttemptProgress::Finished(Err(error)) => ConnectProgress::Finished(
                Err(ServiceError::Io(error)),
            ),
        }
    }

    fn creating<S, L, K, Conn, E>(
        self,
        create: CreateProgress<Vec<u8>, CleanablePathBuf, L, E>,
    ) -> (progress: ConnectProgress<'a, Vec<u8>, CleanablePathBuf, C, S, L, K, Conn, E>)
        ensures
            progress@ == connect_creating::<C, S, L, K, Conn, E>(self@, create@),
    {
        match create {
            CreateProgress::Ongoing(stage, action) => ConnectProgress::Ongoing(
                Connecting { request: self, stage: ConnectStage::Creating(stage) },
                ConnectAction::Create(action),
            ),
            CreateProgress::Finished(Ok((listener, path))) => {
                let executor_prefix = self.executor_prefix;
                let liveness_path = slice_to_vec(path.as_ref());
                ConnectProgress::Ongoing(
                    Connecting { request: self, stage: ConnectStage::Spawning { listener, path } },
                    ConnectAction::Spawn { executor_prefix, liveness_path },
                )
            },
            CreateProgress::Finished(Err(error)) => ConnectProgress::Finished(
                Err(ServiceError::Io(error)),
            ),
        }
    }

    fn abandoning<S, L, K, Conn, E>(
        self,
        cleanup: CleanupProgress<CleanablePathBuf, L, ServiceError<E>>,
    ) -> (progress: ConnectProgress<'a, Vec<u8>, CleanablePathBuf, C, S, L, K, Conn, E>)
        ensures
            progress@ == connect_abandoning::<C, S, L, K, Conn, E>(self@, cleanup@),
    {
        match cleanup {
            CleanupProgress::Ongoing(stage, action) => ConnectProgress::Ongoing(
                Connecting { request: self, stage: ConnectStage::Abandoning(stage) },
                ConnectAction::Cleanup(action),
            ),
            CleanupProgress::Finished(error) => ConnectProgress::Finished(Err(error)),
        }
    }

    fn checking<S, L, K, Conn, E>(
        self,
        child: K,
        check: CheckProgress<CleanablePathBuf, L, S, E>,
    ) -> (progress: ConnectProgress<'a, Vec<u8>, CleanablePathBuf, C, S, L, K, Conn, E>)
        ensures
            progress@ == connect_checking::<C, S, L, K, Conn, E>(self@, child, check@),
    {
        match check {
            CheckProgress::Ongoing(stage, action) => ConnectProgress::Ongoing(
                Connecting { request: self, stage: ConnectStage::Checking { child, check: stage } },
                ConnectAction::Check(action),
            ),
            CheckProgress::Finished(Ok(())) => ConnectProgress::Ongoing(
                Connecting { request: self, stage: ConnectStage::HandingOver },
                ConnectAction::HandOver { child },
            ),
            CheckProgress::Finished(Err(error)) => ConnectProgress::Finished(Err(error)),
        }
    }

    fn second<S, L, K, Conn, E>(
        self,
        attempt: AttemptProgress<Vec<u8>, S, Conn, E>,
    ) -> (progress: ConnectProgress<'a, Vec<u8>, CleanablePathBuf, C, S, L, K, Conn, E>)
        ensures
            progress@ == connect_second::<C, S, L, K, Conn, E>(self@, attempt@),
    {
        match attempt {
            AttemptProgress::Ongoing(stage, action) => ConnectProgress::Ongoing(
                Connecting { request: self, stage: ConnectStage::Second(stage) },
                ConnectAction::Attempt(action),
            ),
            AttemptProgress::Finished(Ok(connection)) => ConnectProgress::Finished(Ok(connection)),
            AttemptProgress::Finished(Err(error)) => ConnectProgress::Finished(
                Err(ServiceError::Io(error)),
            ),
        }
    }
}

impl<'a, C, L, K, E> Connecting<'a, Vec<u8>, CleanablePathBuf, C, L, K, E> {
    /// Whether `event` answers what the connection waits for.
    pub fn awaits<S, A, Conn>(
        &self,
        event: &ConnectEvent<Vec<u8>, S, A, L, K, Conn, E>,
    ) -> (answers: bool)
        ensures
            answers == self.expects(*event),
    {
        match (&self.stage, event) {
            (ConnectStage::First(stage), ConnectEvent::Attempt(answer)) => stage.awaits(answer),
            (ConnectStage::Second(stage), ConnectEvent::Attempt(answer)) => stage.awaits(answer),
            (ConnectStage::Creating(stage), ConnectEvent::Create(answer)) => stage.awaits(answer),
            (ConnectStage::Spawning { .. }, ConnectEvent::Spawned(_)) => true,
            (ConnectStage::Abandoning(stage), ConnectEvent::Cleaned(answer)) => {
                stage.awaits(answer)
            },
            (ConnectStage::Checking { check, .. }, ConnectEvent::Check(answer)) => {
                check.awaits(answer)
            },
            (ConnectStage::HandingOver, ConnectEvent::HandedOver(_)) => true,
            _ => false,
        }
    }

    /// Give the connection up where it stands. The path that is still to be cleaned up, if there is
    /// one, is handed back.
    pub fn give_up(self) -> (path: Option<CleanablePathBuf>)
        ensures
            optional_cleanable(path) == self@.held(),
    {
        match self.stage {
            ConnectStage::Creating(stage) => stage.give_up(),
            ConnectStage::Spawning { listener: _, path } => Some(path),
            ConnectStage::Checking { child: _, check } => check.give_up(),
            _ => None,
        }
    }

    /// Go on with the answer to the last action.
    pub fn step<S, A, Conn>(
        self,
        event: ConnectEvent<Vec<u8>, S, A, L, K, Conn, E>,
    ) -> (progress: ConnectProgress<'a, Vec<u8>, CleanablePathBuf, C, S, L, K, Conn, E>)
        requires
            self.expects(event),
        ensures
            exists|number: u64| progress@ == #[trigger] connect_next(self@, event@, number),
            event matches ConnectEvent::Create(CreateEvent::TempDir(dir)) ==> exists|
                number: u64,
            | #[trigger]
                is_drawn(number) && progress@ == connect_next(self@, event@, number) && (
                progress matches ConnectProgress::Ongoing(
                    _,
                    ConnectAction::Create(CreateAction::Bind { path }),
                ) && path@ == ephemeral_path(dir@, number)),
            !(event matches ConnectEvent::Create(CreateEvent::TempDir(_))) ==> forall|number: u64|
                progress@ == #[trigger] connect_next(self@, event@, number),
    {
        let Connecting { request, stage } = self;
        match (stage, event) {
            (ConnectStage::First(_), ConnectEvent::Attempt(AttemptEvent::Connected(Err(_)))) => {
                let progress = request.creating(ephemeral_liveness_socket_create());
                assert(progress@ == connect_next(self@, event@, 0));
                progress
            },
            (ConnectStage::First(stage), ConnectEvent::Attempt(answer)) => {
                let progress = request.first(stage.step(answer));
                assert(progress@ == connect_next(self@, event@, 0));
                progress
            },
            (ConnectStage::Creating(stage), ConnectEvent::Create(answer)) => {
                let create = stage.step(answer);
                let ghost number = if answer is TempDir {
                    choose|number: u64|
                        #[trigger] is_drawn(number) && create@ == create_next(
                            stage@,
                            answer@,
                            number,
                        )
                } else {
                    choose|number: u64| create@ == #[trigger] create_next(stage@, answer@, number)
                };
                let progress = request.creating(create);
                assert(progress@ == connect_next(self@, event@, number));
                progress
            },
            (ConnectStage::Spawning { listener, path }, ConnectEvent::Spawned(Ok(child))) => {
                let check = ephemeral_liveness_socket_check_with_timeout(
                    listener,
                    path,
                    request.liveness_timeout,
                );
                let progress = request.checking(child, check);
                assert(progress@ == connect_next(self@, event@, 0));
                progress
            },
            (ConnectStage::Spawning { listener, path }, ConnectEvent::Spawned(Err(error))) => {
                let progress = request.abandoning(
                    begin_cleanup(listener, path, ServiceError::Io(error)),
                );
                assert(progress@ == connect_next(self@, event@, 0));
                progress
            },
            (ConnectStage::Abandoning(stage), ConnectEvent::Cleaned(answer)) => {
                let progress = request.abandoning(stage.step(answer));
                assert(progress@ == connect_next(self@, event@, 0));
                progress
            },
            (ConnectStage::Checking { child, check }, ConnectEvent::Check(answer)) => {
                let progress = request.checking(child, check.step(answer));
                assert(progress@ == connect_next(self@, event@, 0));
                progress
            },
            (ConnectStage::HandingOver, ConnectEvent::HandedOver(Ok(()))) => {
                let attempt = begin_attempt(request.socket_path.as_slice());
                let progress = request.second(attempt);
                assert(progress@ == connect_next(self@, event@, 0));
                progress
            },
            (ConnectStage::HandingOver, ConnectEvent::HandedOver(Err(error))) => {
                let progress = ConnectProgress::Finished(Err(ServiceError::Io(error)));
                assert(progress@ == connect_next(self@, event@, 0));
                progress
            },
            (ConnectStage::Second(stage), ConnectEvent::Attempt(answer)) => {
                let progress = request.second(stage.step(answer));
                assert(progress@ == connect_next(self@, event@, 0));
                progress
            },
            _ => {
                assert(false);
                vstd::pervasive::unreached()
            },
        }
    }
}

/// How a connection begins, and how its first attempt goes on: it connects to exactly the path that
/// was asked for. A stream is wrapped, whose outcome is the outcome of the whole; only where there
/// is no stream, the creation of the ephemeral socket follows.
pub proof fn law_first_attempt_steps<'a, C, S, A, L, K, Conn, E>(
    request: ConnectRequest<'a, Seq<u8>, C>,
    stage: AttemptStage,
    answer: AttemptEvent<S, Conn, E>,
    number: u64,
)
    ensures
        connect_start::<C, S, L, K, Conn, E>(request) matches ConnectProgress::Ongoing(
            Connecting { request: kept, stage: ConnectStage::First(AttemptStage::Connecting) },
            ConnectAction::Attempt(AttemptAction::Connect { path }),
        ) && kept == request && path == request.socket_path,
        ({
            let connecting: Connecting<'a, Seq<u8>, Seq<u8>, C, L, K, E> = Connecting {
                request,
                stage: ConnectStage::First(stage),
            };
            let event: ConnectEvent<Seq<u8>, S, A, L, K, Conn, E> = ConnectEvent::Attempt(answer);
            let next = connect_next(connecting, event, number);
            match answer {
                AttemptEvent::Connected(Ok(stream)) => next matches ConnectProgress::Ongoing(
                    Connecting {
                        request: kept,
                        stage: ConnectStage::First(AttemptStage::Wrapping),
                    },
                    ConnectAction::Attempt(AttemptAction::Wrap { stream: wrapped }),
                ) && kept == request && wrapped == stream,
                AttemptEvent::Connected(Err(_)) => next matches ConnectProgress::Ongoing(
                    Connecting {
                        request: kept,
                        stage: ConnectStage::Creating(CreateStage::Locating),
                    },
                    ConnectAction::Create(CreateAction::ReadTempDir),
                ) && kept == request,
                AttemptEvent::Wrapped(Ok(connection)) => next matches ConnectProgress::Finished(
                    Ok(outcome),
                ) && outcome == connection,
                AttemptEvent::Wrapped(Err(error)) => next matches ConnectProgress::Finished(
                    Err(ServiceError::Io(reason)),
                ) && reason == error,
            }
        }),
{
}

/// How a connection goes on from the creation of its ephemeral socket through the start of the
/// service: the path of the number that was drawn is bound; the service is started behind exactly
/// the executor prefix that was asked for, and told exactly that path; it is then waited for on
/// exactly the listener that was bound, for exactly the time that was asked for. A failure to bind
/// or to start is the outcome, after exactly that path was removed.
pub proof fn law_start_steps<'a, C, S, A, L, K, Conn, E>(
    connecting: Connecting<'a, Seq<u8>, Seq<u8>, C, L, K, E>,
    event: ConnectEvent<Seq<u8>, S, A, L, K, Conn, E>,
    number: u64,
)
    ensures
        ({
            let request = connecting.request;
            let next = connect_next(connecting, event, number);
            match (connecting.stage, event) {
                (
                    ConnectStage::Creating(CreateStage::Locating),
                    ConnectEvent::Create(CreateEvent::TempDir(dir)),
                ) => next matches ConnectProgress::Ongoing(
                    Connecting {
                        request: kept,
                        stage: ConnectStage::Creating(CreateStage::Binding { path }),
                    },
                    ConnectAction::Create(CreateAction::Bind { path: bound }),
                ) && kept == request && path == bound && bound == ephemeral_path(dir, number),
                (
                    ConnectStage::Creating(CreateStage::Binding { path }),
                    ConnectEvent::Create(CreateEvent::Bound(Ok(listener))),
                ) => next matches ConnectProgress::Ongoing(
                    Connecting {
                        request: kept,
                        stage: ConnectStage::Spawning { listener: bound, path: kept_path },
                    },
                    ConnectAction::Spawn { executor_prefix, liveness_path },
                ) && kept == request && bound == listener && kept_path == path && executor_prefix
                    == request.executor_prefix && liveness_path == path,
                (
                    ConnectStage::Creating(CreateStage::Binding { path }),
                    ConnectEvent::Create(CreateEvent::Bound(Err(error))),
                ) => next matches ConnectProgress::Ongoing(
                    Connecting {
                        request: kept,
                        stage: ConnectStage::Creating(CreateStage::Removing { error: reason }),
                    },
                    ConnectAction::Create(CreateAction::Remove { cleanable }),
                ) && kept == request && reason == error && cleanable == path,
                (
                    ConnectStage::Creating(CreateStage::Removing { error }),
                    ConnectEvent::Create(CreateEvent::Removed),
                ) => next matches ConnectProgress::Finished(Err(ServiceError::Io(reason)))
                    && reason == error,
                (ConnectStage::Spawning { listener, path }, ConnectEvent::Spawned(Ok(child))) => {
                    next matches ConnectProgress::Ongoing(
                        Connecting {
                            request: kept,
                            stage: ConnectStage::Checking {
                                child: kept_child,
                                check: CheckStage::Accepting { path: kept_path, timeout },
                            },
                        },
                        ConnectAction::Check(
                            CheckAction::Accept { listener: on, timeout: within },
                        ),
                    ) && kept == request && kept_child == child && kept_path == path && on
                        == listener && timeout == request.liveness_timeout && within
                        == request.liveness_timeout
                },
                (ConnectStage::Spawning { listener, path }, ConnectEvent::Spawned(Err(error))) => {
                    next matches ConnectProgress::Ongoing(
                        Connecting {
                            request: kept,
                            stage: ConnectStage::Abandoning(
                                CleanupStage::Removing { listener: kept_listener, error: reason },
                            ),
                        },
                        ConnectAction::Cleanup(CleanupAction::Remove { cleanable }),
                    ) && kept == request && kept_listener == listener && cleanable == path
                        && reason == ServiceError::Io(error)
                },
                (
                    ConnectStage::Abandoning(CleanupStage::Removing { listener, error }),
                    ConnectEvent::Cleaned(CleanupEvent::Removed),
                ) => next matches ConnectProgress::Ongoing(
                    Connecting {
                        request: kept,
                        stage: ConnectStage::Abandoning(CleanupStage::Closing { error: reason }),
                    },
                    ConnectAction::Cleanup(CleanupAction::Close { listener: closed }),
                ) && kept == request && reason == error && closed == listener,
                (
                    ConnectStage::Abandoning(CleanupStage::Closing { error }),
                    ConnectEvent::Cleaned(CleanupEvent::Closed),
                ) => next matches ConnectProgress::Finished(Err(reason)) && reason == error,
                _ => true,
            }
        }),
{
}

/// How a connection goes on from the wait for the ping to its outcome: the wait goes its own way
/// and the process is kept meanwhile; where the wait succeeds, exactly that process is handed over,
/// and after that exactly the path that was asked for is connected to once more. A failure of the
/// wait, of the hand-over or of the second attempt is the outcome, and so is its connection.
pub proof fn law_second_attempt_steps<'a, C, S, A, L, K, Conn, E>(
    connecting: Connecting<'a, Seq<u8>, Seq<u8>, C, L, K, E>,
    event: ConnectEvent<Seq<u8>, S, A, L, K, Conn, E>,
    number: u64,
)
    ensures
        ({
            let request = connecting.request;
            let next = connect_next(connecting, event, number);
            match (connecting.stage, event) {
                (ConnectStage::Checking { child, check }, ConnectEvent::Check(answer)) => {
                    match check_next(check, answer) {
                        CheckProgress::Ongoing(stage, action) => {
                            next matches ConnectProgress::Ongoing(
                                Connecting {
                                    request: kept,
                                    stage: ConnectStage::Checking {
                                        child: kept_child,
                                        check: kept_check,
                                    },
                                },
                                ConnectAction::Check(asked),
                            ) && kept == request && kept_child == child && kept_check == stage
                                && asked == action
                        },
                        CheckProgress::Finished(Ok(())) => next matches ConnectProgress::Ongoing(
                            Connecting { request: kept, stage: ConnectStage::HandingOver },
                            ConnectAction::HandOver { child: handed },
                        ) && kept == request && handed == child,
                        CheckProgress::Finished(Err(error)) => {
                            next matches ConnectProgress::Finished(Err(reason)) && reason == error
                        },
                    }
                },
                (ConnectStage::HandingOver, ConnectEvent::HandedOver(Ok(()))) => {
                    next matches ConnectProgress::Ongoing(
                        Connecting {
                            request: kept,
                            stage: ConnectStage::Second(AttemptStage::Connecting),
                        },
                        ConnectAction::Attempt(AttemptAction::Connect { path }),
                    ) && kept == request && path == request.socket_path
                },
                (ConnectStage::HandingOver, ConnectEvent::HandedOver(Err(error))) => {
                    next matches ConnectProgress::Finished(Err(ServiceError::Io(reason)))
                        && reason == error
                },
                (
                    ConnectStage::Second(_),
                    ConnectEvent::Attempt(AttemptEvent::Connected(Ok(stream))),
                ) => next matches ConnectProgress::Ongoing(
                    Connecting {
                        request: kept,
                        stage: ConnectStage::Second(AttemptStage::Wrapping),
                    },
                    ConnectAction::Attempt(AttemptAction::Wrap { stream: wrapped }),
                ) && kept == request && wrapped == stream,
                (
                    ConnectStage::Second(_),
                    ConnectEvent::Attempt(AttemptEvent::Connected(Err(error))),
                ) => next matches ConnectProgress::Finished(Err(ServiceError::Io(reason)))
                    && reason == error,
                (
                    ConnectStage::Second(_),
                    ConnectEvent::Attempt(AttemptEvent::Wrapped(Ok(connection))),
                ) => next matches ConnectProgress::Finished(Ok(outcome)) && outcome == connection,
                (
                    ConnectStage::Second(_),
                    ConnectEvent::Attempt(AttemptEvent::Wrapped(Err(error))),
                ) => next matches ConnectProgress::Finished(Err(ServiceError::Io(reason)))
                    && reason == error,
                _ => true,
            }
        }),
{
}

/// A connection waits for the answer to what it asked for last, and for no other. What it holds to
/// be cleaned up is the path of its ephemeral socket, from the binding until the removal is asked
/// for.
pub proof fn law_connect_awaits<'a, P, G, C, S, A, L, K, Conn, E>(
    connecting: Connecting<'a, P, G, C, L, K, E>,
    event: ConnectEvent<P, S, A, L, K, Conn, E>,
)
    ensures
        connecting.expects(event) <==> match (connecting.stage, event) {
            (ConnectStage::First(stage), ConnectEvent::Attempt(answer)) => stage.expects(answer),
            (ConnectStage::Second(stage), ConnectEvent::Attempt(answer)) => stage.expects(answer),
            (ConnectStage::Creating(stage), ConnectEvent::Create(answer)) => stage.expects(answer),
            (ConnectStage::Spawning { .. }, ConnectEvent::Spawned(_)) => true,
            (ConnectStage::Abandoning(stage), ConnectEvent::Cleaned(answer)) => {
                stage.expects(answer)
            },
            (ConnectStage::Checking { check, .. }, ConnectEvent::Check(answer)) => {
                check.expects(answer)
            },
            (ConnectStage::HandingOver, ConnectEvent::HandedOver(_)) => true,
            _ => false,
        },
        match connecting.stage {
            ConnectStage::Creating(CreateStage::Binding { path }) => connecting.held() == Some(
                path,
            ),
            ConnectStage::Spawning { path, .. } => connecting.held() == Some(path),
            ConnectStage::Checking { check: CheckStage::Accepting { path, .. }, .. } => {
                connecting.held() == Some(path)
            },
            ConnectStage::Checking { check: CheckStage::ShuttingDown { path, .. }, .. } => {
                connecting.held() == Some(path)
            },
            ConnectStage::Checking { check: CheckStage::Closing { path }, .. } => {
                connecting.held() == Some(path)
            },
            _ => connecting.held() is None,
        },
{
}

/// The values of a connection are seen as they are, their paths byte for byte.
pub proof fn law_connect_is_seen_whole<'a, C, S, A, L, K, Conn, E>(
    connecting: Connecting<'a, Vec<u8>, CleanablePathBuf, C, L, K, E>,
    action: ConnectAction<'a, Vec<u8>, CleanablePathBuf, C, S, L, K>,
    event: ConnectEvent<Vec<u8>, S, A, L, K, Conn, E>,
    progress: ConnectProgress<'a, Vec<u8>, CleanablePathBuf, C, S, L, K, Conn, E>,
)
    ensures
        connecting@.request.socket_path == connecting.request.socket_path@,
        connecting@.request.executor_prefix == connecting.request.executor_prefix,
        connecting@.request.liveness_timeout == connecting.request.liveness_timeout,
        connecting.request@ == connecting@.request,
        connecting.stage@ == connecting@.stage,
        match connecting.stage {
            ConnectStage::First(stage) => connecting@.stage matches ConnectStage::First(seen)
                && seen == stage,
            ConnectStage::Creating(stage) => connecting@.stage matches ConnectStage::Creating(seen)
                && seen == stage@,
            ConnectStage::Spawning { listener, path } => {
                connecting@.stage matches ConnectStage::Spawning { listener: kept, path: seen }
                    && kept == listener && seen == path@
            },
            ConnectStage::Abandoning(stage) => {
                connecting@.stage matches ConnectStage::Abandoning(seen) && seen == stage
            },
            ConnectStage::Checking { child, check } => {
                connecting@.stage matches ConnectStage::Checking { child: kept, check: seen }
                    && kept == child && seen == check@
            },
            ConnectStage::HandingOver => connecting@.stage is HandingOver,
            ConnectStage::Second(stage) => connecting@.stage matches ConnectStage::Second(seen)
                && seen == stage,
        },
        match action {
            ConnectAction::Attempt(part) => action@ matches ConnectAction::Attempt(seen) && seen
                == part@,
            ConnectAction::Create(part) => action@ matches ConnectAction::Create(seen) && seen
                == part@,
            ConnectAction::Spawn { executor_prefix, liveness_path } => {
                action@ matches ConnectAction::Spawn { executor_prefix: prefix, liveness_path: seen }
                    && prefix == executor_prefix && seen == liveness_path@
            },
            ConnectAction::Cleanup(part) => action@ matches ConnectAction::Cleanup(seen) && seen
                == part@,
            ConnectAction::Check(part) => action@ matches ConnectAction::Check(seen) && seen
                == part@,
            ConnectAction::HandOver { child } => action@ matches ConnectAction::HandOver {
                child: seen,
            } && seen == child,
        },
        match event {
            ConnectEvent::Attempt(answer) => event@ matches ConnectEvent::Attempt(seen) && seen
                == answer,
            ConnectEvent::Create(answer) => event@ matches ConnectEvent::Create(seen) && seen
                == answer@,
            ConnectEvent::Spawned(answer) => event@ matches ConnectEvent::Spawned(seen) && seen
                == answer,
            ConnectEvent::Cleaned(answer) => event@ matches ConnectEvent::Cleaned(seen) && seen
                == answer,
            ConnectEvent::Check(answer) => event@ matches ConnectEvent::Check(seen) && seen
                == answer,
            ConnectEvent::HandedOver(answer) => event@ matches ConnectEvent::HandedOver(seen)
                && seen == answer,
        },
        match progress {
            ConnectProgress::Ongoing(now, asked) => progress@ matches ConnectProgress::Ongoing(
                seen,
                seen_action,
            ) && seen == now@ && seen_action == asked@,
            ConnectProgress::Finished(outcome) => progress@ matches ConnectProgress::Finished(seen)
                && seen == outcome,
        },
{
}

} // verus!
