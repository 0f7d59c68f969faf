//! The behaviours of a responder that can be switched on.

use vstd::prelude::*;

verus! {

/// What a responder does beyond serving the files it finds. Each behaviour
/// is switched on or off on its own.
#[derive(Clone, Copy, Debug, PartialEq, Eq, Structural)]
pub struct Options {
    /// Answer the path of a directory with the `index.html` in it.
    pub index: bool,
    /// Look up segments that begin with a dot.
    pub dot_files: bool,
    /// Redirect the path of a directory that lacks a trailing slash to the
    /// same path with one.
    pub normalize_dirs: bool,
}

impl Options {
    /// Every behaviour switched off.
    pub fn none() -> (options: Options)
        ensures
            !options.index,
            !options.dot_files,
            !options.normalize_dirs,
    {
        Options { index: false, dot_files: false, normalize_dirs: false }
    }
}

impl Default for Options {
    /// Directory indexes switched on, the rest off.
    fn default() -> (options: Options)
        ensures
            options.index,
            !options.dot_files,
            !options.normalize_dirs,
    {
        Options { index: true, dot_files: false, normalize_dirs: false }
    }
}

} // verus!
