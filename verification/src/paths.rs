//! File paths.

use std::path::PathBuf;
use vstd::prelude::*;

verus! {

/// `std::path::PathBuf`, a path of the file system.
#[verifier::external_type_specification]
#[verifier::external_body]
pub struct ExPathBuf(PathBuf);

/// The components of a path, each as the bytes by which paths are compared.
pub uninterp spec fn path_components(path: PathBuf) -> Seq<Seq<u8>>;

/// Whether `name` is a plain file name: ASCII letters, digits, underscores and dots, with a letter in
/// front.
pub open spec fn is_file_name(name: Seq<char>) -> bool {
    &&& name.len() > 0
    &&& 'a' <= name[0] <= 'z' || 'A' <= name[0] <= 'Z'
    &&& forall|i: int|
        0 <= i < name.len() ==> {
            ||| 'a' <= #[trigger] name[i] <= 'z'
            ||| 'A' <= name[i] <= 'Z'
            ||| '0' <= name[i] <= '9'
            ||| name[i] == '_'
            ||| name[i] == '.'
        }
}

/// The one component that a plain file name is.
pub open spec fn name_component(name: Seq<char>) -> Seq<u8> {
    vstd::utf8::encode_utf8(name)
}

/// The components of the path that `PathBuf::from` makes of a text.
pub uninterp spec fn parsed_components(text: Seq<char>) -> Seq<Seq<u8>>;

/// `PathBuf::from`: the path that a text writes. A plain file name, and a single dot, is the path of
/// that one component.
#[verifier::external_body]
pub(crate) fn path_from(text: &str) -> (r: PathBuf)
    ensures
        path_components(r) == parsed_components(text@),
        is_file_name(text@) || text@ == "."@ ==> path_components(r) == seq![name_component(text@)],
{
    PathBuf::from(text)
}

/// The components of the path that `Path::join` makes of a directory and a text.
pub uninterp spec fn joined_components(directory: PathBuf, text: Seq<char>) -> Seq<Seq<u8>>;

/// `Path::join`: the path that a text writes, seen from a directory. Which components that path has is
/// left to the name: it depends on the forms of paths that the system has, and a directory with a
/// verbatim prefix is normalized on the way.
#[verifier::external_body]
pub(crate) fn path_join(directory: &PathBuf, text: &str) -> (r: PathBuf)
    ensures
        path_components(r) == joined_components(*directory, text@),
{
    directory.join(text)
}

/// `==` on paths: whether they have the same components.
#[verifier::external_body]
pub(crate) fn path_eq(a: &PathBuf, b: &PathBuf) -> (r: bool)
    ensures
        r == (path_components(*a) == path_components(*b)),
{
    a == b
}

} // verus!
