//! Services, and the directories and executors they are used with.
use crate::attempt::{attempt_start, begin_attempt, AttemptProgress};
use crate::cleanable_path::CleanablePathBuf;
use crate::connect::{begin_connect, connect_start, ConnectProgress, ConnectRequest};
use crate::path::{join, joined, law_names_in_one_directory_are_distinct, optional};
use crate::serve::{serve_start, ServeAction, ServeProgress, ServeStage};
use crate::server::{Server, ServerExt};
use crate::socket_shims::UnixSocketInterface;
use crate::timeout::LivenessTimeout;
use std::marker::PhantomData;
use vstd::prelude::*;

verus! {

/// A single service: a process that can be communicated with through a
/// [`UnixSocketInterface::UnixStream`], wrapped in an api.
///
/// Services are run with a *base context path*, which acts as a runtime namespace and allows
/// multiple instances of collections of services without accidental interaction between the
/// groups. Each service has a *socket name*, which is the place in the base context path where it
/// puts its socket.
pub trait Service<U: UnixSocketInterface> {
    /// A connection to the service's server, made of a stream.
    type ServiceClientConnection;

    /// The name of the socket file in the base context path. A service that is verified says what
    /// it is; nothing is known of it for one that is not.
    open spec fn spec_socket_name(&self) -> Seq<u8> {
        arbitrary()
    }

    /// Obtain the name of the socket file in the base context path. In a collection of services
    /// the names should be unique.
    fn socket_name(&self) -> (name: &[u8])
        ensures
            name@ == self.spec_socket_name(),
    ;
}

/// What can be done with every [`Service`].
pub trait ServiceExt<U: UnixSocketInterface>: Service<U> {
    /// Reify this service into a [`ReifiedService`] that carries around the base context directory
    /// for connecting to it.
    fn reify<'i>(self, base_context_directory: &'i [u8]) -> (reified: ReifiedService<'i, Self, U>)
        where Self: Sized
        ensures
            reified.service() == self,
            reified.base() == base_context_directory@,
            reified.prefix() is None,
    {
        ReifiedService::reify_service(self, base_context_directory)
    }

    /// Reify this service into a [`ReifiedService`] that carries around the base context directory
    /// and an executor prefix.
    fn reify_with_executor<'i, C>(
        self,
        base_context_directory: &'i [u8],
        executor_prefix: &'i [C],
    ) -> (reified: ReifiedService<'i, Self, U, C>) where Self: Sized
        ensures
            reified.service() == self,
            reified.base() == base_context_directory@,
            reified.prefix() == Some(executor_prefix),
    {
        ReifiedService::reify_service_with_executor(self, base_context_directory, executor_prefix)
    }

    /// Start to connect to an already running service. This will not try to start the service on
    /// failure.
    fn connect_to_running_service<E>(&self, base_context_directory: &[u8]) -> (progress:
        AttemptProgress<Vec<u8>, U::UnixStream, Self::ServiceClientConnection, E>)
        ensures
            progress@ == attempt_start::<U::UnixStream, Self::ServiceClientConnection, E>(
                joined(base_context_directory@, self.spec_socket_name()),
            ),
    {
        let server_socket_path = join(base_context_directory, self.socket_name());
        begin_attempt(server_socket_path.as_slice())
    }

    /// Start to connect to the service in the given runtime context directory; if it is not
    /// running it is started. Then `liveness_timeout` is the maximum time before a non-response to
    /// the liveness check will result in an error.
    fn connect_to_service<'a, C, K, E>(
        &self,
        executor_commandline_prefix: Option<&'a [C]>,
        base_context_directory: &[u8],
        liveness_timeout: LivenessTimeout,
    ) -> (progress: ConnectProgress<
        'a,
        Vec<u8>,
        CleanablePathBuf,
        C,
        U::UnixStream,
        U::UnixListener,
        K,
        Self::ServiceClientConnection,
        E,
    >)
        ensures
            progress@ == connect_start::<
                C,
                U::UnixStream,
                U::UnixListener,
                K,
                Self::ServiceClientConnection,
                E,
            >(
                (ConnectRequest {
                    socket_path: joined(base_context_directory@, self.spec_socket_name()),
                    executor_prefix: executor_commandline_prefix,
                    liveness_timeout,
                }),
            ),
    {
        let server_socket_path = join(base_context_directory, self.socket_name());
        begin_connect(server_socket_path.as_slice(), executor_commandline_prefix, liveness_timeout)
    }
}

impl<U: UnixSocketInterface, S: Service<U>> ServiceExt<U> for S {

}

/// A service that is declared by its socket's name, and whose client connection is the bare stream.
#[derive(Debug, PartialEq, Eq)]
pub struct DeclaredService {
    pub socket_name: Vec<u8>,
}

impl<U: UnixSocketInterface> Service<U> for DeclaredService {
    type ServiceClientConnection = U::UnixStream;

    open spec fn spec_socket_name(&self) -> Seq<u8> {
        self.socket_name@
    }

    fn socket_name(&self) -> (name: &[u8]) {
        self.socket_name.as_slice()
    }
}

/// Holds a particular instance of a [`Service`], along with a base context directory and optional
/// executor prefix.
pub struct ReifiedService<'info, S: Service<U>, U: UnixSocketInterface, C = Vec<u8>> {
    executor_prefix: Option<&'info [C]>,
    base_context_directory: &'info [u8],
    bare_service: S,
    _unix_socket_iface: PhantomData<U>,
}

impl<'info, S: Service<U>, U: UnixSocketInterface, C> ReifiedService<'info, S, U, C> {
    /// The executor prefix.
    pub closed spec fn prefix(&self) -> Option<&'info [C]> {
        self.executor_prefix
    }

    /// The base context directory.
    pub closed spec fn base(&self) -> Seq<u8> {
        self.base_context_directory@
    }

    /// The service itself.
    pub closed spec fn service(&self) -> S {
        self.bare_service
    }

    /// Reify a service into a specific base context directory
    pub fn reify_service(service: S, base_context_directory: &'info [u8]) -> (reified: Self)
        ensures
            reified.service() == service,
            reified.base() == base_context_directory@,
            reified.prefix() is None,
    {
        ReifiedService {
            executor_prefix: None,
            base_context_directory,
            bare_service: service,
            _unix_socket_iface: PhantomData,
        }
    }

    /// Reify a service along with an executor prefix.
    pub fn reify_service_with_executor(
        service: S,
        base_context_directory: &'info [u8],
        executor_prefix: &'info [C],
    ) -> (reified: Self)
        ensures
            reified.service() == service,
            reified.base() == base_context_directory@,
            reified.prefix() == Some(executor_prefix),
    {
        ReifiedService {
            executor_prefix: Some(executor_prefix),
            base_context_directory,
            bare_service: service,
            _unix_socket_iface: PhantomData,
        }
    }

    /// The executor prefix.
    pub fn executor_prefix(&self) -> (prefix: Option<&'info [C]>)
        ensures
            prefix == self.prefix(),
    {
        self.executor_prefix
    }

    /// The base context directory.
    pub fn base_context_directory(&self) -> (base: &'info [u8])
        ensures
            base@ == self.base(),
    {
        self.base_context_directory
    }

    /// The service itself.
    pub fn bare_service(&self) -> (service: &S)
        ensures
            *service == self.service(),
    {
        &self.bare_service
    }

    /// Start to connect to this service; if it is not running it is started.
    ///
    /// The timeout is for how long to wait until concluding that, in the case of an attempt to
    /// start the service because it wasn't running, the service failed to begin.
    pub fn connect<K, E>(&self, liveness_timeout: LivenessTimeout) -> (progress: ConnectProgress<
        'info,
        Vec<u8>,
        CleanablePathBuf,
        C,
        U::UnixStream,
        U::UnixListener,
        K,
        S::ServiceClientConnection,
        E,
    >)
        ensures
            progress@ == connect_start::<
                C,
                U::UnixStream,
                U::UnixListener,
                K,
                S::ServiceClientConnection,
                E,
            >(
                (ConnectRequest {
                    socket_path: joined(self.base(), self.service().spec_socket_name()),
                    executor_prefix: self.prefix(),
                    liveness_timeout,
                }),
            ),
    {
        self.bare_service.connect_to_service(
            self.executor_prefix,
            self.base_context_directory,
            liveness_timeout,
        )
    }

    /// Start to connect to this service, without attempts to start it upon failure.
    pub fn connect_to_running<E>(&self) -> (progress: AttemptProgress<
        Vec<u8>,
        U::UnixStream,
        S::ServiceClientConnection,
        E,
    >)
        ensures
            progress@ == attempt_start::<U::UnixStream, S::ServiceClientConnection, E>(
                joined(self.base(), self.service().spec_socket_name()),
            ),
    {
        self.bare_service.connect_to_running_service(self.base_context_directory)
    }

    /// Start to run an actual server for this service, with a provided implementation and optional
    /// liveness socket path.
    pub fn serve_service_implementation<T: Server<S, U>, E>(
        &self,
        server: &T,
        liveness_socket_path: Option<&[u8]>,
    ) -> (progress: ServeProgress<
        Vec<u8>,
        CleanablePathBuf,
        U::UnixStream,
        U::UnixListener,
        T::ListenerWrapper,
        T::FinalOutput,
        E,
    >)
        ensures
            progress@ == serve_start::<
                U::UnixStream,
                U::UnixListener,
                T::ListenerWrapper,
                T::FinalOutput,
                E,
            >(
                joined(self.base(), self.service().spec_socket_name()),
                optional(liveness_socket_path),
            ),
            progress matches ServeProgress::Ongoing(
                ServeStage::Binding { path: kept, liveness_path: told },
                ServeAction::Bind { path: bound },
            ) && kept@ == joined(self.base(), self.service().spec_socket_name()) && bound@ == kept@
                && match liveness_socket_path {
                Some(liveness_path) => told matches Some(seen) && seen@ == liveness_path@,
                None => told is None,
            },
    {
        server.start_and_run_server(
            &self.bare_service,
            self.base_context_directory,
            liveness_socket_path,
        )
    }
}

/// A declared service is found under exactly the bytes that it was declared with, whatever their
/// number. So two of them meet in one base context directory only if they were declared with the
/// same name, names that lead out of the directory left aside.
pub proof fn law_declared_service_keeps_its_name<U: UnixSocketInterface>(
    base: Seq<u8>,
    service: DeclaredService,
    other: DeclaredService,
)
    ensures
        <DeclaredService as Service<U>>::spec_socket_name(&service) == service.socket_name@,
        !(service.socket_name@.len() > 0 && service.socket_name@[0] == 47) && !(
        other.socket_name@.len() > 0 && other.socket_name@[0] == 47) ==> (joined(
            base,
            <DeclaredService as Service<U>>::spec_socket_name(&service),
        ) == joined(base, <DeclaredService as Service<U>>::spec_socket_name(&other))
            <==> service.socket_name@ == other.socket_name@),
{
    let one = service.socket_name@;
    let two = other.socket_name@;
    if !(one.len() > 0 && one[0] == 47) && !(two.len() > 0 && two[0] == 47) {
        law_names_in_one_directory_are_distinct(base, one, two);
    }
}

} // verus!
