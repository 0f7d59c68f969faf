//! What a responder answers, and the steps of the answer that need no tree.

use crate::media::{content_type, content_type_of};
use crate::options::Options;
use crate::path::{ends_with_slash, has_trailing_slash};
use crate::request::{Uri, UriView};
use crate::tree::bytes_of;
use vstd::prelude::*;

verus! {

/// A file to answer with: its bytes, and its content type where that is
/// known.
#[derive(Debug, PartialEq, Eq)]
pub struct Response {
    pub body: &'static [u8],
    pub content_type: Option<String>,
}

/// A `Response` as plain sequences.
pub struct ResponseView {
    pub body: Seq<u8>,
    pub content_type: Option<Seq<char>>,
}

impl View for Response {
    type V = ResponseView;

    open spec fn view(&self) -> ResponseView {
        ResponseView { body: self.body@, content_type: self.content_type.deep_view() }
    }
}

impl DeepView for Response {
    type V = ResponseView;

    open spec fn deep_view(&self) -> ResponseView {
        self@
    }
}

/// The answer of a responder to one request.
#[derive(Debug, PartialEq, Eq)]
pub enum Outcome {
    /// Answer with this file.
    Success(Response),
    /// Redirect for good to this URI.
    Redirect(Uri),
    /// Answer nothing and let the next handler try.
    Forward,
}

/// An `Outcome` as plain sequences.
pub enum OutcomeView {
    Success(ResponseView),
    Redirect(UriView),
    Forward,
}

impl View for Outcome {
    type V = OutcomeView;

    open spec fn view(&self) -> OutcomeView {
        match self {
            Outcome::Success(response) => OutcomeView::Success(response@),
            Outcome::Redirect(uri) => OutcomeView::Redirect(uri@),
            Outcome::Forward => OutcomeView::Forward,
        }
    }
}

impl DeepView for Outcome {
    type V = OutcomeView;

    open spec fn deep_view(&self) -> OutcomeView {
        self@
    }
}

/// The response that serves a file: its bytes as they are, under the content
/// type that goes with its name.
pub open spec fn response_for(name: Seq<char>, body: Seq<u8>) -> ResponseView {
    ResponseView { body, content_type: content_type_of(name) }
}

/// The answer to a request for the file `name`, of which the tree holds
/// `found`: the file is served where there is one, and the request is passed
/// on where there is none.
pub open spec fn served(name: Seq<char>, found: Option<Seq<u8>>) -> OutcomeView {
    match found {
        Some(body) => OutcomeView::Success(response_for(name, body)),
        None => OutcomeView::Forward,
    }
}

/// What is settled of the answer to a request for a directory before the
/// index of the directory is looked up.
///
/// Where directory paths are normalized and the path of `uri` lacks its
/// trailing slash, the answer is a redirect to `uri` with the slash. Else,
/// where indexes are not served, the request is passed on. Else nothing is
/// settled: the index decides.
pub open spec fn settled(options: Options, uri: UriView) -> Option<OutcomeView> {
    if options.normalize_dirs && !ends_with_slash(uri.path) {
        Some(OutcomeView::Redirect(uri.with_trailing_slash()))
    } else if !options.index {
        Some(OutcomeView::Forward)
    } else {
        None
    }
}

/// Builds the response that serves the file `name` with the bytes `body`.
pub fn respond_with(name: &str, body: &'static [u8]) -> (response: Response)
    ensures
        response@ == response_for(name@, body@),
{
    Response { body, content_type: content_type(name) }
}

/// Answers a request for the file `name`, of which the tree holds `found`.
pub fn serve(name: &str, found: Option<&'static [u8]>) -> (outcome: Outcome)
    ensures
        outcome@ == served(name@, bytes_of(found)),
{
    match found {
        Some(body) => Outcome::Success(respond_with(name, body)),
        None => Outcome::Forward,
    }
}

/// Settles the answer to a request for a directory as far as its index need
/// not be looked up; `None` where the index decides.
pub fn settle(options: Options, uri: &Uri) -> (outcome: Option<Outcome>)
    ensures
        outcome.deep_view() == settled(options, uri@),
{
    if options.normalize_dirs && !has_trailing_slash(uri.path.as_str()) {
        Some(Outcome::Redirect(uri.with_trailing_slash()))
    } else if !options.index {
        Some(Outcome::Forward)
    } else {
        None
    }
}

} // verus!
