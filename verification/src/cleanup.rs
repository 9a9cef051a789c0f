//! Giving an ephemeral socket up after a failure.
use crate::cleanable_path::CleanablePathBuf;
use vstd::prelude::*;

verus! {

/// Where the disposal of an ephemeral socket after a failure stands.
#[derive(Debug, PartialEq, Eq)]
pub enum CleanupStage<L, X> {
    /// The path is being cleaned up.
    Removing { listener: L, error: X },
    /// The listener is being closed.
    Closing { error: X },
}

/// What the disposal of an ephemeral socket asks its driver to do.
#[derive(Debug, PartialEq, Eq)]
pub enum CleanupAction<G, L> {
    /// Remove the file at the path `cleanable`, if there is one.
    Remove { cleanable: G },
    /// Close `listener`.
    Close { listener: L },
}

/// That a [`CleanupAction`] was carried out.
#[derive(Clone, Copy, Debug, PartialEq, Eq)]
pub enum CleanupEvent {
    Removed,
    Closed,
}

/// A disposal under way with its next action, or the error that made it necessary.
#[derive(Debug, PartialEq, Eq)]
pub enum CleanupProgress<G, L, X> {
    Ongoing(CleanupStage<L, X>, CleanupAction<G, L>),
    Finished(X),
}

impl<L> View for CleanupAction<CleanablePathBuf, L> {
    type V = CleanupAction<Seq<u8>, L>;

    open spec fn view(&self) -> CleanupAction<Seq<u8>, L> {
        match *self {
            CleanupAction::Remove { cleanable } => CleanupAction::Remove { cleanable: cleanable@ },
            CleanupAction::Close { listener } => CleanupAction::Close { listener },
        }
    }
}

impl<L, X> View for CleanupProgress<CleanablePathBuf, L, X> {
    type V = CleanupProgress<Seq<u8>, L, X>;

    open spec fn view(&self) -> CleanupProgress<Seq<u8>, L, X> {
        match *self {
            CleanupProgress::Ongoing(stage, action) => CleanupProgress::Ongoing(stage, action@),
            CleanupProgress::Finished(error) => CleanupProgress::Finished(error),
        }
    }
}

/// After a failure the path is cleaned up first, then the listener is closed.
pub open spec fn cleanup_start<L, X>(
    listener: L,
    path: Seq<u8>,
    error: X,
) -> CleanupProgress<Seq<u8>, L, X> {
    CleanupProgress::Ongoing(
        CleanupStage::Removing { listener, error },
        CleanupAction::Remove { cleanable: path },
    )
}

/// The error outlives the disposal.
pub open spec fn cleanup_next<L, X>(stage: CleanupStage<L, X>) -> CleanupProgress<Seq<u8>, L, X> {
    match stage {
        CleanupStage::Removing { listener, error } => CleanupProgress::Ongoing(
            CleanupStage::Closing { error },
            CleanupAction::Close { listener },
        ),
        CleanupStage::Closing { error } => CleanupProgress::Finished(error),
    }
}

/// Start to dispose of an ephemeral socket because of `error`.
pub fn begin_cleanup<L, X>(
    listener: L,
    path: CleanablePathBuf,
    error: X,
) -> (progress: CleanupProgress<CleanablePathBuf, L, X>)
    ensures
        progress@ == cleanup_start(listener, path@, error),
{
    CleanupProgress::Ongoing(
        CleanupStage::Removing { listener, error },
        CleanupAction::Remove { cleanable: path },
    )
}

impl<L, X> CleanupStage<L, X> {
    /// Whether `event` answers what a disposal at this stage waits for.
    pub open spec fn expects(self, event: CleanupEvent) -> bool {
        match self {
            CleanupStage::Removing { .. } => event is Removed,
            CleanupStage::Closing { .. } => event is Closed,
        }
    }

    /// Whether `event` answers what a disposal at this stage waits for.
    pub fn awaits(&self, event: &CleanupEvent) -> (answers: bool)
        ensures
            answers == self.expects(*event),
    {
        match (self, event) {
            (CleanupStage::Removing { .. }, CleanupEvent::Removed) => true,
            (CleanupStage::Closing { .. }, CleanupEvent::Closed) => true,
            _ => false,
        }
    }

    /// Go on after the last action was carried out.
    pub fn step(self, event: CleanupEvent) -> (progress: CleanupProgress<CleanablePathBuf, L, X>)
        requires
            self.expects(event),
        ensures
            progress@ == cleanup_next(self),
    {
        match self {
            CleanupStage::Removing { listener, error } => CleanupProgress::Ongoing(
                CleanupStage::Closing { error },
                CleanupAction::Close { listener },
            ),
            CleanupStage::Closing { error } => CleanupProgress::Finished(error),
        }
    }
}

/// A disposal removes exactly the path that it was given, then closes exactly the listener that it
/// was given, and ends with exactly the error that made it necessary.
pub proof fn law_cleanup_steps<L, X>(listener: L, path: Seq<u8>, error: X)
    ensures
        ({
            let removing = cleanup_start(listener, path, error);
            &&& removing matches CleanupProgress::Ongoing(
                stage,
                CleanupAction::Remove { cleanable },
            )
            &&& cleanable == path
            &&& stage.expects(CleanupEvent::Removed) && !stage.expects(CleanupEvent::Closed)
            &&& cleanup_next(stage) matches CleanupProgress::Ongoing(
                later,
                CleanupAction::Close { listener: closed },
            )
            &&& closed == listener
            &&& later.expects(CleanupEvent::Closed) && !later.expects(CleanupEvent::Removed)
            &&& cleanup_next(later) matches CleanupProgress::Finished(reason)
            &&& reason == error
        }),
{
}

/// The same of a disposal that stands anywhere: what it still has to do, and the error, are what
/// its stage says.
pub proof fn law_cleanup_goes_on<L, X>(stage: CleanupStage<L, X>, event: CleanupEvent)
    ensures
        stage.expects(event) <==> match (stage, event) {
            (CleanupStage::Removing { .. }, CleanupEvent::Removed) => true,
            (CleanupStage::Closing { .. }, CleanupEvent::Closed) => true,
            _ => false,
        },
        match stage {
            CleanupStage::Removing { listener, error } => {
                cleanup_next(stage) matches CleanupProgress::Ongoing(
                    CleanupStage::Closing { error: reason },
                    CleanupAction::Close { listener: closed },
                ) && reason == error && closed == listener
            },
            CleanupStage::Closing { error } => {
                cleanup_next(stage) matches CleanupProgress::Finished(reason) && reason == error
            },
        },
{
}

/// The values of a disposal are seen as they are, their paths byte for byte.
pub proof fn law_cleanup_is_seen_whole<L, X>(
    action: CleanupAction<CleanablePathBuf, L>,
    progress: CleanupProgress<CleanablePathBuf, L, X>,
)
    ensures
        match action {
            CleanupAction::Remove { cleanable } => action@ matches CleanupAction::Remove {
                cleanable: seen,
            } && seen == cleanable@,
            CleanupAction::Close { listener } => action@ matches CleanupAction::Close {
                listener: seen,
            } && seen == listener,
        },
        match progress {
            CleanupProgress::Ongoing(stage, action) => progress@ matches CleanupProgress::Ongoing(
                seen,
                seen_action,
            ) && seen == stage && seen_action == action@,
            CleanupProgress::Finished(error) => progress@ matches CleanupProgress::Finished(seen)
                && seen == error,
        },
{
}

} // verus!
