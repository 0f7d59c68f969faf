//! The embedded tree: what the lookups of [`include_dir::Dir`] find.

use include_dir::Dir;
use vstd::prelude::*;

verus! {

/// `include_dir::Dir`, taken as it is: nothing inside it is read but through
/// the lookups below.
#[verifier::external_type_specification]
#[verifier::external_body]
pub struct ExDir<'a>(Dir<'a>);

/// The files of a tree: each path under which `Dir::get_file` finds a file,
/// with the bytes of that file. Nothing is said of which paths these are.
pub uninterp spec fn embedded_files(root: Dir<'static>) -> Map<Seq<char>, Seq<u8>>;

/// The directories of a tree: each path under which `Dir::get_dir` finds a
/// directory. Nothing is said of which paths these are.
pub uninterp spec fn embedded_dirs(root: Dir<'static>) -> Set<Seq<char>>;

/// What `files` holds under `path`: the bytes of the file there, or `None`
/// where there is no file.
pub open spec fn held(files: Map<Seq<char>, Seq<u8>>, path: Seq<char>) -> Option<Seq<u8>> {
    if files.dom().contains(path) {
        Some(files[path])
    } else {
        None
    }
}

/// The bytes of what a lookup found.
pub open spec fn bytes_of(found: Option<&'static [u8]>) -> Option<Seq<u8>> {
    match found {
        Some(bytes) => Some(bytes@),
        None => None,
    }
}

/// `Dir::get_file`, then `File::contents`: the bytes of the file that the
/// search finds under `path`, or `None` where it finds no file.
///
/// Not proved: that the search depends on the tree and the path alone, so
/// that what it finds is what `embedded_files` names.
#[verifier::external_body]
pub(crate) fn find_file(root: &'static Dir<'static>, path: &str) -> (found: Option<&'static [u8]>)
    ensures
        bytes_of(found) == held(embedded_files(*root), path@),
{
    root.get_file(path).map(|file| file.contents())
}

/// `Dir::get_dir`: whether the search finds a directory under `path`.
///
/// Not proved: that the search depends on the tree and the path alone, so
/// that what it finds is what `embedded_dirs` names.
#[verifier::external_body]
pub(crate) fn has_dir(root: &'static Dir<'static>, path: &str) -> (found: bool)
    ensures
        found == embedded_dirs(*root).contains(path@),
{
    root.get_dir(path).is_some()
}

} // verus!
