//! How long to wait for a started service, and what to say when it stays silent.
use std::time::Duration;
use vstd::prelude::*;
use vstd::string::StringExecFns;

verus! {

/// Nanoseconds in a second.
pub const NANOS_PER_SEC: u32 = 1_000_000_000;

/// The time a service that was started has to report that it is live: whole seconds, and the
/// nanoseconds past them.
#[derive(Clone, Copy, Debug, PartialEq, Eq)]
pub struct LivenessTimeout {
    secs: u64,
    nanos: u32,
}

impl LivenessTimeout {
    #[verifier::type_invariant]
    spec fn normalized(self) -> bool {
        self.nanos < NANOS_PER_SEC
    }

    /// The whole seconds.
    pub closed spec fn spec_secs(self) -> u64 {
        self.secs
    }

    /// The nanoseconds past the whole seconds.
    pub closed spec fn spec_subsec_nanos(self) -> u32 {
        self.nanos
    }

    /// A timeout of `secs` seconds and `nanos` nanoseconds, if the latter make up less than a
    /// second.
    pub fn new(secs: u64, nanos: u32) -> (timeout: Option<Self>)
        ensures
            timeout is Some <==> nanos < NANOS_PER_SEC,
            timeout is Some <==> nanos < 1_000_000_000,
            timeout matches Some(t) ==> t.spec_secs() == secs && t.spec_subsec_nanos() == nanos,
    {
        if nanos < NANOS_PER_SEC {
            Some(LivenessTimeout { secs, nanos })
        } else {
            None
        }
    }

    /// The whole seconds.
    pub fn as_secs(&self) -> (secs: u64)
        ensures
            secs == self.spec_secs(),
    {
        self.secs
    }

    /// The nanoseconds past the whole seconds.
    pub fn subsec_nanos(&self) -> (nanos: u32)
        ensures
            nanos == self.spec_subsec_nanos(),
            nanos < NANOS_PER_SEC,
            nanos < 1_000_000_000,
    {
        proof {
            use_type_invariant(self);
        }
        self.nanos
    }
}

/// What `humantime::format_duration` writes for a duration of `secs` seconds and `nanos`
/// nanoseconds.
pub uninterp spec fn formatted_duration(secs: u64, nanos: u32) -> Seq<char>;

/// Write a duration for a human reader, with `humantime::format_duration`. What it writes is a
/// function of the duration alone, and goes by the name [`formatted_duration`]; the units it
/// chooses are not stated.
#[verifier::external_body]
fn format_duration(secs: u64, nanos: u32) -> (text: String)
    requires
        nanos < NANOS_PER_SEC,
    ensures
        text@ == formatted_duration(secs, nanos),
{
    humantime::format_duration(Duration::new(secs, nanos)).to_string()
}

/// Say that a service stayed silent for a time, which is given as text.
pub fn timed_out_after(duration: &str) -> (message: String)
    ensures
        message@ == "Timed out waiting for service to become live after "@ + duration@,
{
    let mut message = "Timed out waiting for service to become live after ".to_owned();
    message.append(duration);
    message
}

/// Say that a service stayed silent for as long as `timeout`.
pub fn timed_out_message(timeout: LivenessTimeout) -> (message: String)
    ensures
        message@ == "Timed out waiting for service to become live after "@ + formatted_duration(
            timeout.spec_secs(),
            timeout.spec_subsec_nanos(),
        ),
{
    let duration = format_duration(timeout.as_secs(), timeout.subsec_nanos());
    timed_out_after(duration.as_str())
}

} // verus!
