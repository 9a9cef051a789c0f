//! Giving up on an operation after some time.
use vstd::prelude::*;

verus! {

/// Where an operation with a timeout stands.
#[derive(Debug, PartialEq, Eq)]
pub enum Timed<T> {
    /// Neither has the operation completed nor has the time passed.
    Pending,
    /// The operation is over: with its output, or with `None` if the time had passed first.
    Ready(Option<T>),
}

/// Decide on an operation with a timeout, given the operation's output if it has completed by now,
/// and whether the time has passed by now. While this says [`Timed::Pending`] it is to be asked
/// again.
///
/// If the operation is ready at the same time the timeout expires, its output is returned.
pub fn with_timeout<T>(output: Option<T>, expired: bool) -> (timed: Timed<T>)
    ensures
        timed == timed_out(output, expired),
        output is Some ==> timed == Timed::Ready(output),
        output is None && expired ==> timed == Timed::<T>::Ready(None),
        output is None && !expired ==> timed is Pending,
{
    match output {
        Some(output) => Timed::Ready(Some(output)),
        None => if expired {
            Timed::Ready(None)
        } else {
            Timed::Pending
        },
    }
}

/// What [`with_timeout`] decides.
pub open spec fn timed_out<T>(output: Option<T>, expired: bool) -> Timed<T> {
    if output is Some || expired {
        Timed::Ready(output)
    } else {
        Timed::Pending
    }
}

/// The decision after being asked with each of `observations` in turn, up to the first that is not
/// [`Timed::Pending`].
pub open spec fn timed_run<T>(observations: Seq<(Option<T>, bool)>) -> Timed<T>
    decreases observations.len(),
{
    if observations.len() == 0 {
        Timed::Pending
    } else {
        match timed_out(observations[0].0, observations[0].1) {
            Timed::Pending => timed_run(observations.skip(1)),
            decided => decided,
        }
    }
}

/// An operation with a timeout gives the operation's output if that was there no later than the
/// timeout, and `None` if the timeout was there before it: only what was seen at the first moment
/// at which either was there counts, and at that moment the output is preferred.
pub proof fn law_output_is_preferred<T>(observations: Seq<(Option<T>, bool)>, moment: int)
    requires
        0 <= moment < observations.len(),
        forall|i: int|
            0 <= i < moment ==> (#[trigger] observations[i]).0 is None && !observations[i].1,
        observations[moment].0 is Some || observations[moment].1,
    ensures
        timed_run(observations) == Timed::Ready(observations[moment].0),
    decreases moment,
{
    if moment > 0 {
        let rest = observations.skip(1);
        assert(observations[0].0 is None && !observations[0].1);
        assert forall|i: int| 0 <= i < moment - 1 implies (#[trigger] rest[i]).0 is None
            && !rest[i].1 by {
            assert(rest[i] == observations[i + 1]);
        }
        assert(rest[moment - 1] == observations[moment]);
        law_output_is_preferred(rest, moment - 1);
    }
}

} // verus!
