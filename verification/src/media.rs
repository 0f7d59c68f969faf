//! Content types, by the extension of a file name.

use crate::path::{extension, extension_of};
use rocket::http::ContentType;
use vstd::prelude::*;

verus! {

/// What Rocket's table of known extensions holds for `extension`: the
/// content type, written as the value of a `Content-Type` header, or `None`
/// for an extension that the table lacks.
pub uninterp spec fn known_content_type(extension: Seq<char>) -> Option<Seq<char>>;

/// `ContentType::from_extension`, the result written out as a header value.
///
/// Not proved: that the lookup depends on the extension alone, so that what
/// it gives is what `known_content_type` names. Of which extensions are
/// known, and with which content type, the contract claims nothing.
#[verifier::external_body]
fn content_type_from_extension(extension: &str) -> (found: Option<String>)
    ensures
        found.deep_view() == known_content_type(extension@),
{
    ContentType::from_extension(extension).map(|content_type| content_type.to_string())
}

/// The content type of a file, by the extension of its name. A name without
/// an extension has none, nor has one whose extension is not known.
pub open spec fn content_type_of(name: Seq<char>) -> Option<Seq<char>> {
    match extension_of(name) {
        Some(extension) => known_content_type(extension),
        None => None,
    }
}

/// Finds the content type of a file by the extension of its name.
pub fn content_type(name: &str) -> (found: Option<String>)
    ensures
        found.deep_view() == content_type_of(name@),
{
    match extension(name) {
        Some(extension) => content_type_from_extension(extension),
        None => None,
    }
}

} // verus!
