//! Servers of services.
use crate::cleanable_path::CleanablePathBuf;
use crate::path::{join, joined, optional};
use crate::serve::{begin_serving, serve_start, ServeAction, ServeProgress, ServeStage};
use crate::service::Service;
use crate::socket_shims::UnixSocketInterface;
use vstd::prelude::*;

verus! {

/// Server implementation for a [`Service`]
pub trait Server<S: Service<U>, U: UnixSocketInterface> {
    /// Type that wraps a unix socket listener.
    type ListenerWrapper;

    /// What a run of the server gives back.
    type FinalOutput;
}

/// What can be done with every [`Server`].
pub trait ServerExt<S: Service<U>, U: UnixSocketInterface>: Server<S, U> {
    /// Start to create the listener socket, notify the liveness socket, and when finally
    /// returning, clean the listener socket up.
    ///
    /// The liveness socket is pinged after the creation of a receiving socket at the standard path
    /// for the service. This is a protocol requirement: a ping means that a socket exists to
    /// connect to.
    fn start_and_run_server<E>(
        &self,
        service: &S,
        context_base_path: &[u8],
        liveness_socket_path: Option<&[u8]>,
    ) -> (progress: ServeProgress<
        Vec<u8>,
        CleanablePathBuf,
        U::UnixStream,
        U::UnixListener,
        Self::ListenerWrapper,
        Self::FinalOutput,
        E,
    >)
        ensures
            progress@ == serve_start::<
                U::UnixStream,
                U::UnixListener,
                Self::ListenerWrapper,
                Self::FinalOutput,
                E,
            >(
                joined(context_base_path@, service.spec_socket_name()),
                optional(liveness_socket_path),
            ),
            progress matches ServeProgress::Ongoing(
                ServeStage::Binding { path: kept, liveness_path: told },
                ServeAction::Bind { path: bound },
            ) && kept@ == joined(context_base_path@, service.spec_socket_name()) && bound@ == kept@
                && match liveness_socket_path {
                Some(liveness_path) => told matches Some(seen) && seen@ == liveness_path@,
                None => told is None,
            },
    {
        begin_serving(join(context_base_path, service.socket_name()), liveness_socket_path)
    }
}

impl<U: UnixSocketInterface, S: Service<U>, T: Server<S, U>> ServerExt<S, U> for T {

}

} // verus!
