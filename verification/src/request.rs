//! The URI of a request, as far as a responder reads it.

use vstd::prelude::*;

verus! {

/// The URI of a request: its whole path as it was sent, mount point
/// included, and its query if it has one. The URI of a request has no other
/// part.
#[derive(Debug, PartialEq, Eq)]
pub struct Uri {
    pub path: String,
    pub query: Option<String>,
}

/// A `Uri` as plain sequences.
pub struct UriView {
    pub path: Seq<char>,
    pub query: Option<Seq<char>>,
}

impl UriView {
    /// The same URI with `/` appended to its path.
    pub open spec fn with_trailing_slash(self) -> UriView {
        UriView { path: self.path.push('/'), query: self.query }
    }
}

impl View for Uri {
    type V = UriView;

    open spec fn view(&self) -> UriView {
        UriView { path: self.path@, query: self.query.deep_view() }
    }
}

impl DeepView for Uri {
    type V = UriView;

    open spec fn deep_view(&self) -> UriView {
        self@
    }
}

impl Uri {
    /// Appends `/` to the path and keeps the rest.
    pub fn with_trailing_slash(&self) -> (uri: Uri)
        ensures
            uri@ == self@.with_trailing_slash(),
    {
        let mut path = self.path.clone();
        path.append("/");
        let query = match &self.query {
            Some(query) => Some(query.clone()),
            None => None,
        };
        proof {
            reveal_strlit("/");
            assert(path@ =~= self.path@.push('/'));
        }
        Uri { path, query }
    }
}

} // verus!
