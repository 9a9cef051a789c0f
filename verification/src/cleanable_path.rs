//! Path whose file is removed from the file system when its owner is done with it.
use vstd::prelude::*;

verus! {

/// Path of a file that has to be removed once this value is given up: used to clean up sockets.
///
/// Cannot be mutated once made, for the path that was handed in is the one to clean up.
#[derive(Debug, PartialEq, Eq)]
pub struct CleanablePathBuf {
    path: Vec<u8>,
}

impl View for CleanablePathBuf {
    type V = Seq<u8>;

    closed spec fn view(&self) -> Seq<u8> {
        self.path@
    }
}

impl CleanablePathBuf {
    /// The cleanable path made of `p`.
    pub closed spec fn of(p: Vec<u8>) -> Self {
        CleanablePathBuf { path: p }
    }

    /// Make sure the path at the provided location, if it has a file, is deleted.
    pub fn new(p: Vec<u8>) -> (cleanable: Self)
        ensures
            cleanable@ == p@,
            cleanable == Self::of(p),
    {
        CleanablePathBuf { path: p }
    }
}

impl vstd::std_specs::convert::FromSpecImpl<Vec<u8>> for CleanablePathBuf {
    open spec fn obeys_from_spec() -> bool {
        true
    }

    open spec fn from_spec(p: Vec<u8>) -> Self {
        CleanablePathBuf::of(p)
    }
}

impl From<Vec<u8>> for CleanablePathBuf {
    fn from(p: Vec<u8>) -> (cleanable: Self)
        ensures
            cleanable@ == p@,
    {
        CleanablePathBuf::new(p)
    }
}

impl AsRef<[u8]> for CleanablePathBuf {
    fn as_ref(&self) -> (path: &[u8])
        ensures
            path@ == self@,
    {
        self.path.as_slice()
    }
}

/// A cleanable path that may be missing, as a byte sequence.
pub open spec fn optional_cleanable(path: Option<CleanablePathBuf>) -> Option<Seq<u8>> {
    match path {
        Some(path) => Some(path@),
        None => None,
    }
}

/// The bytes of a borrowed path.
pub open spec fn path_bytes(path: &[u8]) -> Seq<u8> {
    path@
}

impl std::borrow::Borrow<[u8]> for CleanablePathBuf {
    fn borrow(&self) -> (path: &[u8])
        ensures
            path_bytes(path) == self@,
    {
        self.path.as_slice()
    }
}

/// A borrowed path is seen byte for byte, and so is a cleanable path that is there.
pub proof fn law_cleanable_path_is_seen_whole(borrowed: &[u8], cleanable: CleanablePathBuf)
    ensures
        path_bytes(borrowed) == borrowed@,
        optional_cleanable(Some(cleanable)) == Some(cleanable@),
        optional_cleanable(None) is None,
{
}

} // verus!
