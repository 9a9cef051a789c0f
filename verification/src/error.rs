//! Failures to connect to a service.
use crate::timeout::LivenessTimeout;
use vstd::prelude::*;

verus! {

/// Why there is no connection to a service: an operation of the driver failed with `E`, or a
/// service that was started did not report in time.
#[derive(Debug, PartialEq, Eq)]
pub enum ServiceError<E> {
    Io(E),
    TimedOut(LivenessTimeout),
}

} // verus!
