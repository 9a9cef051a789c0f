//! Unix paths as byte strings, and the one operation the library needs of them.
use vstd::prelude::*;

verus! {

/// The byte that separates the components of a Unix path: `/`.
pub const SEPARATOR: u8 = 47;

/// Whether `path` is absolute: whether it starts at the root directory.
pub open spec fn is_absolute(path: Seq<u8>) -> bool {
    path.len() > 0 && path[0] == SEPARATOR
}

/// Whether a separator has to be written between `base` and what follows it.
pub open spec fn needs_separator(base: Seq<u8>) -> bool {
    base.len() > 0 && base.last() != SEPARATOR
}

/// The path of `name` as seen from the directory `base`: `name` itself where that is absolute,
/// otherwise `name` behind `base`, with exactly as much of a separator as is missing.
pub open spec fn joined(base: Seq<u8>, name: Seq<u8>) -> Seq<u8> {
    if is_absolute(name) {
        name
    } else if needs_separator(base) {
        base + seq![SEPARATOR] + name
    } else {
        base + name
    }
}

/// A path that may be missing, as a byte sequence.
pub open spec fn optional(path: Option<&[u8]>) -> Option<Seq<u8>> {
    match path {
        Some(path) => Some(path@),
        None => None,
    }
}

/// Adjoin `name` to the directory `base`, as [`std::path::Path::join`] does on Unix.
pub fn join(base: &[u8], name: &[u8]) -> (path: Vec<u8>)
    ensures
        path@ == joined(base@, name@),
        name@.len() > 0 && name@[0] == 47 ==> path@ == name@,
        !(name@.len() > 0 && name@[0] == 47) ==> path@ == base@ + (if base@.len() > 0
            && base@.last() != 47 {
            seq![47u8]
        } else {
            Seq::empty()
        }) + name@,
{
    let mut path: Vec<u8> = Vec::new();
    if name.len() > 0 && name[0] == SEPARATOR {
        path.extend_from_slice(name);
        assert(path@ =~= name@);
        return path;
    }
    path.extend_from_slice(base);
    assert(path@ =~= base@);
    if base.len() > 0 && base[base.len() - 1] != SEPARATOR {
        path.push(SEPARATOR);
    }
    let ghost before = path@;
    path.extend_from_slice(name);
    assert(path@ =~= before + name@);
    path
}

/// A directory written so that a name can follow it at once.
pub open spec fn directory_prefix(base: Seq<u8>) -> Seq<u8> {
    if needs_separator(base) {
        base + seq![SEPARATOR]
    } else {
        base
    }
}

/// Names of two sockets in one directory lead to one path only if they are the same name. Names
/// that are absolute lead out of the directory, so they are left out.
pub proof fn law_names_in_one_directory_are_distinct(base: Seq<u8>, one: Seq<u8>, other: Seq<u8>)
    requires
        !is_absolute(one),
        !is_absolute(other),
    ensures
        joined(base, one) == joined(base, other) <==> one == other,
{
    let prefix = directory_prefix(base);
    assert(joined(base, one) =~= prefix + one);
    assert(joined(base, other) =~= prefix + other);
    if joined(base, one) == joined(base, other) {
        assert(one =~= (prefix + one).skip(prefix.len() as int));
        assert(other =~= (prefix + other).skip(prefix.len() as int));
    }
}

/// Directories are namespaces: two file names in two directories lead to one path only if both
/// the names and the directories are the same, a directory being the same with and without its
/// trailing separator.
pub proof fn law_directories_are_namespaces(
    base: Seq<u8>,
    name: Seq<u8>,
    other_base: Seq<u8>,
    other_name: Seq<u8>,
)
    requires
        !name.contains(SEPARATOR),
        !other_name.contains(SEPARATOR),
    ensures
        joined(base, name) == joined(other_base, other_name) <==> name == other_name
            && directory_prefix(base) == directory_prefix(other_base),
{
    let prefix = directory_prefix(base);
    let other_prefix = directory_prefix(other_base);
    assert(is_absolute(name) ==> name.contains(name[0]));
    assert(is_absolute(other_name) ==> other_name.contains(other_name[0]));
    let path = joined(base, name);
    assert(path =~= prefix + name);
    assert(joined(other_base, other_name) =~= other_prefix + other_name);
    if path == joined(other_base, other_name) {
        if prefix.len() > other_prefix.len() {
            assert(path[prefix.len() - 1] == SEPARATOR);
            let at = prefix.len() - 1 - other_prefix.len();
            assert((other_prefix + other_name)[prefix.len() - 1] == other_name[at]);
            assert(false);
        }
        if prefix.len() < other_prefix.len() {
            assert((other_prefix + other_name)[other_prefix.len() - 1] == SEPARATOR);
            let at = other_prefix.len() - 1 - prefix.len();
            assert(path[other_prefix.len() - 1] == name[at]);
            assert(false);
        }
        assert(prefix =~= path.take(prefix.len() as int));
        assert(other_prefix =~= path.take(prefix.len() as int));
        assert(name =~= path.skip(prefix.len() as int));
        assert(other_name =~= path.skip(prefix.len() as int));
    }
}

/// A relative name is found in its directory under exactly that name: the path is the directory,
/// byte for byte, then the name, byte for byte, and between them nothing, or the one separator
/// that the directory lacks. An absolute name is its own path.
pub proof fn law_joined_path_is_directory_then_name(base: Seq<u8>, name: Seq<u8>)
    ensures
        ({
            let path = joined(base, name);
            let between = path.len() - base.len() - name.len();
            if name.len() > 0 && name[0] == 47 {
                path == name
            } else {
                &&& path.len() >= base.len() + name.len()
                &&& path.take(base.len() as int) == base
                &&& path.skip(path.len() - name.len()) == name
                &&& between == if base.len() > 0 && base.last() != 47 {
                    1int
                } else {
                    0
                }
                &&& between == 1 ==> path[base.len() as int] == 47
            }
        }),
{
    let path = joined(base, name);
    if !is_absolute(name) {
        assert(path.take(base.len() as int) =~= base);
        assert(path.skip(path.len() - name.len()) =~= name);
    }
}

/// A directory as it is written before a name: itself, with a separator behind it if it is neither
/// empty nor ends in one.
pub proof fn law_directory_prefix(base: Seq<u8>)
    ensures
        directory_prefix(base).take(base.len() as int) == base,
        directory_prefix(base).len() == base.len() || directory_prefix(base).len() == base.len()
            + 1,
        directory_prefix(base).len() > 0 ==> directory_prefix(base).last() == 47,
        directory_prefix(base).len() == base.len() + 1 ==> base.len() > 0 && base.last() != 47,
{
    assert(directory_prefix(base).take(base.len() as int) =~= base);
}

/// A path that is there is seen byte for byte, whatever its length, and one that is missing is
/// missing.
pub proof fn law_optional_path_is_seen_whole(path: &[u8])
    ensures
        optional(Some(path)) == Some(path@),
        optional(None) is None,
{
}

} // verus!
