//! Creating the ephemeral socket by which a service that is started reports that it is live.
use crate::cleanable_path::{optional_cleanable, CleanablePathBuf};
use crate::sockpath::{
    ephemeral_path, get_random_sockpath, is_drawn, law_ephemeral_paths_are_distinct,
};
use vstd::prelude::*;
use vstd::slice::slice_to_vec;

verus! {

/// Where the creation of an ephemeral socket stands. `G` is a path whose file is to be removed.
#[derive(Debug, PartialEq, Eq)]
pub enum CreateStage<G, E> {
    /// The directory for temporary files was asked for.
    Locating,
    /// A listener at `path` was asked for.
    Binding { path: G },
    /// Binding failed with `error`, and the path is being cleaned up.
    Removing { error: E },
}

/// What the creation of an ephemeral socket asks its driver to do next. `P` is a path.
#[derive(Debug, PartialEq, Eq)]
pub enum CreateAction<P, G> {
    /// Look up the directory for temporary files.
    ReadTempDir,
    /// Bind a listener to `path`.
    Bind { path: P },
    /// Remove the file at the path `cleanable`, if there is one.
    Remove { cleanable: G },
}

/// How a [`CreateAction`] came out.
#[derive(Debug, PartialEq, Eq)]
pub enum CreateEvent<P, L, E> {
    /// The answer to [`CreateAction::ReadTempDir`].
    TempDir(P),
    /// The answer to [`CreateAction::Bind`].
    Bound(Result<L, E>),
    /// The answer to [`CreateAction::Remove`].
    Removed,
}

/// A creation under way with its next action, or its outcome: the listener, and the path that is
/// to be cleaned up after it.
#[derive(Debug, PartialEq, Eq)]
pub enum CreateProgress<P, G, L, E> {
    Ongoing(CreateStage<G, E>, CreateAction<P, G>),
    Finished(Result<(L, G), E>),
}

impl<E> View for CreateStage<CleanablePathBuf, E> {
    type V = CreateStage<Seq<u8>, E>;

    open spec fn view(&self) -> CreateStage<Seq<u8>, E> {
        match *self {
            CreateStage::Locating => CreateStage::Locating,
            CreateStage::Binding { path } => CreateStage::Binding { path: path@ },
            CreateStage::Removing { error } => CreateStage::Removing { error },
        }
    }
}

impl View for CreateAction<Vec<u8>, CleanablePathBuf> {
    type V = CreateAction<Seq<u8>, Seq<u8>>;

    open spec fn view(&self) -> CreateAction<Seq<u8>, Seq<u8>> {
        match *self {
            CreateAction::ReadTempDir => CreateAction::ReadTempDir,
            CreateAction::Bind { path } => CreateAction::Bind { path: path@ },
            CreateAction::Remove { cleanable } => CreateAction::Remove { cleanable: cleanable@ },
        }
    }
}

impl<L, E> View for CreateEvent<Vec<u8>, L, E> {
    type V = CreateEvent<Seq<u8>, L, E>;

    open spec fn view(&self) -> CreateEvent<Seq<u8>, L, E> {
        match *self {
            CreateEvent::TempDir(dir) => CreateEvent::TempDir(dir@),
            CreateEvent::Bound(bound) => CreateEvent::Bound(bound),
            CreateEvent::Removed => CreateEvent::Removed,
        }
    }
}

impl<L, E> View for CreateProgress<Vec<u8>, CleanablePathBuf, L, E> {
    type V = CreateProgress<Seq<u8>, Seq<u8>, L, E>;

    open spec fn view(&self) -> CreateProgress<Seq<u8>, Seq<u8>, L, E> {
        match *self {
            CreateProgress::Ongoing(stage, action) => CreateProgress::Ongoing(stage@, action@),
            CreateProgress::Finished(Ok((listener, path))) => CreateProgress::Finished(
                Ok((listener, path@)),
            ),
            CreateProgress::Finished(Err(error)) => CreateProgress::Finished(Err(error)),
        }
    }
}

impl<G, E> CreateStage<G, E> {
    /// Whether `event` answers what a creation at this stage waits for.
    pub open spec fn expects<P, L>(self, event: CreateEvent<P, L, E>) -> bool {
        match self {
            CreateStage::Locating => event is TempDir,
            CreateStage::Binding { .. } => event is Bound,
            CreateStage::Removing { .. } => event is Removed,
        }
    }

    /// The path that is still to be cleaned up.
    pub open spec fn held(self) -> Option<G> {
        match self {
            CreateStage::Binding { path } => Some(path),
            _ => None,
        }
    }
}

/// A creation begins by looking for a place.
pub open spec fn create_start<L, E>() -> CreateProgress<Seq<u8>, Seq<u8>, L, E> {
    CreateProgress::Ongoing(CreateStage::Locating, CreateAction::ReadTempDir)
}

/// The socket is bound to the path that `number` gives in the directory for temporary files. The
/// path is handed on with the listener; where binding fails it is cleaned up at once.
pub open spec fn create_next<L, E>(
    stage: CreateStage<Seq<u8>, E>,
    event: CreateEvent<Seq<u8>, L, E>,
    number: u64,
) -> CreateProgress<Seq<u8>, Seq<u8>, L, E> {
    match (stage, event) {
        (CreateStage::Locating, CreateEvent::TempDir(dir)) => {
            let path = ephemeral_path(dir, number);
            CreateProgress::Ongoing(CreateStage::Binding { path }, CreateAction::Bind { path })
        },
        (CreateStage::Binding { path }, CreateEvent::Bound(Ok(listener))) => {
            CreateProgress::Finished(Ok((listener, path)))
        },
        (CreateStage::Binding { path }, CreateEvent::Bound(Err(error))) => {
            CreateProgress::Ongoing(
                CreateStage::Removing { error },
                CreateAction::Remove { cleanable: path },
            )
        },
        (CreateStage::Removing { error }, _) => CreateProgress::Finished(Err(error)),
        _ => arbitrary(),
    }
}

/// Start to create an ephemeral socket at a random path.
///
/// Go on with [`crate::check::ephemeral_liveness_socket_check_with_timeout`] after starting the
/// process that is meant to ping the socket.
pub fn ephemeral_liveness_socket_create<L, E>() -> (progress: CreateProgress<
    Vec<u8>,
    CleanablePathBuf,
    L,
    E,
>)
    ensures
        progress@ == create_start::<L, E>(),
{
    CreateProgress::Ongoing(CreateStage::Locating, CreateAction::ReadTempDir)
}

impl<E> CreateStage<CleanablePathBuf, E> {
    /// Whether `event` answers what a creation at this stage waits for.
    pub fn awaits<L>(&self, event: &CreateEvent<Vec<u8>, L, E>) -> (answers: bool)
        ensures
            answers == self.expects(*event),
    {
        match (self, event) {
            (CreateStage::Locating, CreateEvent::TempDir(_)) => true,
            (CreateStage::Binding { .. }, CreateEvent::Bound(_)) => true,
            (CreateStage::Removing { .. }, CreateEvent::Removed) => true,
            _ => false,
        }
    }

    /// Give the creation up where it stands. The path that is still to be cleaned up, if there is
    /// one, is handed back.
    pub fn give_up(self) -> (path: Option<CleanablePathBuf>)
        ensures
            optional_cleanable(path) == self@.held(),
    {
        match self {
            CreateStage::Binding { path } => Some(path),
            _ => None,
        }
    }

    /// Go on with the answer to the last action.
    pub fn step<L>(self, event: CreateEvent<Vec<u8>, L, E>) -> (progress: CreateProgress<
        Vec<u8>,
        CleanablePathBuf,
        L,
        E,
    >)
        requires
            self.expects(event),
        ensures
            exists|number: u64| progress@ == #[trigger] create_next(self@, event@, number),
            event matches CreateEvent::TempDir(dir) ==> exists|number: u64| #[trigger]
                is_drawn(number) && progress@ == create_next(self@, event@, number)
                    && (progress matches CreateProgress::Ongoing(
                    _,
                    CreateAction::Bind { path },
                ) && path@ == ephemeral_path(dir@, number)),
            event !is TempDir ==> forall|number: u64|
                progress@ == #[trigger] create_next(self@, event@, number),
    {
        match (self, event) {
            (CreateStage::Locating, CreateEvent::TempDir(dir)) => {
                let path = get_random_sockpath(dir.as_slice());
                let ghost number = choose|number: u64|
                    #[trigger] is_drawn(number) && path@ == ephemeral_path(dir@, number);
                let copy = slice_to_vec(path.as_slice());
                let progress = CreateProgress::Ongoing(
                    CreateStage::Binding { path: CleanablePathBuf::new(path) },
                    CreateAction::Bind { path: copy },
                );
                assert(progress@ == create_next(self@, event@, number));
                progress
            },
            (CreateStage::Binding { path }, CreateEvent::Bound(Ok(listener))) => {
                let progress = CreateProgress::Finished(Ok((listener, path)));
                assert(progress@ == create_next(self@, event@, 0));
                progress
            },
            (CreateStage::Binding { path }, CreateEvent::Bound(Err(error))) => {
                let progress = CreateProgress::Ongoing(
                    CreateStage::Removing { error },
                    CreateAction::Remove { cleanable: path },
                );
                assert(progress@ == create_next(self@, event@, 0));
                progress
            },
            (CreateStage::Removing { error }, _) => {
                let progress = CreateProgress::Finished(Err(error));
                assert(progress@ == create_next(self@, event@, 0));
                progress
            },
            _ => {
                assert(false);
                vstd::pervasive::unreached()
            },
        }
    }
}

/// A creation first asks for the directory for temporary files. It then binds the path of the
/// number that was drawn for it there, and holds it to be cleaned up; the listener is handed on
/// with exactly that path, or else exactly that path is removed and the failure is the outcome.
pub proof fn law_create_steps<L, E>(
    stage: CreateStage<Seq<u8>, E>,
    event: CreateEvent<Seq<u8>, L, E>,
    number: u64,
)
    ensures
        create_start::<L, E>() == CreateProgress::<Seq<u8>, Seq<u8>, L, E>::Ongoing(
            CreateStage::Locating,
            CreateAction::ReadTempDir,
        ),
        ({
            let next = create_next(stage, event, number);
            match (stage, event) {
                (CreateStage::Locating, CreateEvent::TempDir(dir)) => {
                    next matches CreateProgress::Ongoing(
                        CreateStage::Binding { path },
                        CreateAction::Bind { path: bound },
                    ) && path == bound && bound == ephemeral_path(dir, number)
                },
                (CreateStage::Binding { path }, CreateEvent::Bound(Ok(listener))) => {
                    next matches CreateProgress::Finished(Ok((bound, kept))) && bound == listener
                        && kept == path
                },
                (CreateStage::Binding { path }, CreateEvent::Bound(Err(error))) => {
                    next matches CreateProgress::Ongoing(
                        CreateStage::Removing { error: reason },
                        CreateAction::Remove { cleanable },
                    ) && reason == error && cleanable == path
                },
                (CreateStage::Removing { error }, CreateEvent::Removed) => {
                    next matches CreateProgress::Finished(Err(reason)) && reason == error
                },
                _ => true,
            }
        }),
{
}

/// Creations in one directory for temporary files bind one path only if they have drawn one number.
pub proof fn law_creations_do_not_collide<L, E>(dir: Seq<u8>, number: u64, other: u64)
    ensures
        create_next::<L, E>(CreateStage::Locating, CreateEvent::TempDir(dir), number) == create_next::<
            L,
            E,
        >(CreateStage::Locating, CreateEvent::TempDir(dir), other) <==> number == other,
{
    law_ephemeral_paths_are_distinct(dir, number, other);
    let event: CreateEvent<Seq<u8>, L, E> = CreateEvent::TempDir(dir);
    law_create_steps(CreateStage::Locating, event, number);
    law_create_steps(CreateStage::Locating, event, other);
}

/// A creation waits for the answer to what it asked for last, and for no other. What it holds to be
/// cleaned up is the path that it is binding.
pub proof fn law_create_awaits<G, P, L, E>(stage: CreateStage<G, E>, event: CreateEvent<P, L, E>)
    ensures
        stage.expects(event) <==> match (stage, event) {
            (CreateStage::Locating, CreateEvent::TempDir(_)) => true,
            (CreateStage::Binding { .. }, CreateEvent::Bound(_)) => true,
            (CreateStage::Removing { .. }, CreateEvent::Removed) => true,
            _ => false,
        },
        match stage {
            CreateStage::Binding { path } => stage.held() == Some(path),
            _ => stage.held() is None,
        },
{
}

/// The values of a creation are seen as they are, their paths byte for byte.
pub proof fn law_create_is_seen_whole<L, E>(
    stage: CreateStage<CleanablePathBuf, E>,
    action: CreateAction<Vec<u8>, CleanablePathBuf>,
    event: CreateEvent<Vec<u8>, L, E>,
    progress: CreateProgress<Vec<u8>, CleanablePathBuf, L, E>,
)
    ensures
        match stage {
            CreateStage::Locating => stage@ is Locating,
            CreateStage::Binding { path } => stage@ matches CreateStage::Binding { path: seen }
                && seen == path@,
            CreateStage::Removing { error } => stage@ matches CreateStage::Removing { error: seen }
                && seen == error,
        },
        match action {
            CreateAction::ReadTempDir => action@ is ReadTempDir,
            CreateAction::Bind { path } => action@ matches CreateAction::Bind { path: seen }
                && seen == path@,
            CreateAction::Remove { cleanable } => action@ matches CreateAction::Remove {
                cleanable: seen,
            } && seen == cleanable@,
        },
        match event {
            CreateEvent::TempDir(dir) => event@ matches CreateEvent::TempDir(seen) && seen == dir@,
            CreateEvent::Bound(bound) => event@ matches CreateEvent::Bound(seen) && seen == bound,
            CreateEvent::Removed => event@ is Removed,
        },
        match progress {
            CreateProgress::Ongoing(stage, action) => progress@ matches CreateProgress::Ongoing(
                seen,
                seen_action,
            ) && seen == stage@ && seen_action == action@,
            CreateProgress::Finished(Ok((listener, path))) => {
                progress@ matches CreateProgress::Finished(Ok((seen, seen_path))) && seen == listener
                    && seen_path == path@
            },
            CreateProgress::Finished(Err(error)) => {
                progress@ matches CreateProgress::Finished(Err(seen)) && seen == error
            },
        },
{
}

} // verus!
