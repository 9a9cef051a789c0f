//! What the library needs to know of the sockets that its driver works with.
use vstd::prelude::*;

verus! {

/// A kind of Unix sockets, as one runtime provides them. The library passes their values from one
/// operation of its driver to the next and never looks inside.
pub trait UnixSocketInterface {
    /// Unix stream type.
    type UnixStream;

    /// Unix listener type.
    type UnixListener;

    /// Unix socket address type.
    type SocketAddr;
}

/// The runtimes that there are socket interfaces and timers for.
#[derive(Clone, Copy, Debug, PartialEq, Eq)]
pub enum Runtime {
    AsyncStd,
    Tokio,
    StdThreadpool,
}

/// The runtime to use where the caller names none: `async-std` if it is available, else `tokio` if
/// that is, else a thread pool, which always is.
pub fn default_runtime(async_std: bool, tokio: bool) -> (runtime: Runtime)
    ensures
        runtime is AsyncStd <==> async_std,
        runtime is Tokio <==> !async_std && tokio,
        runtime is StdThreadpool <==> !async_std && !tokio,
{
    if async_std {
        Runtime::AsyncStd
    } else if tokio {
        Runtime::Tokio
    } else {
        Runtime::StdThreadpool
    }
}

} // verus!
