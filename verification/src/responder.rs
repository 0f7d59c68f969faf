//! The responder: a tree, the options it is served under, and the rank of
//! its route.

use crate::media::{content_type_of, known_content_type};
use crate::options::Options;
use crate::outcome::{serve, served, settle, settled};
use crate::outcome::{Outcome, OutcomeView, ResponseView};
use crate::path::{ends_with_slash, extension_of, joined, relative_path, segments_allowed};
use crate::request::{Uri, UriView};
use crate::tree::{embedded_dirs, embedded_files, find_file, has_dir, held};
use include_dir::Dir;
use vstd::prelude::*;

verus! {

/// The rank of a responder's route unless another is set.
pub const DEFAULT_RANK: isize = 10;

/// The name of the file that answers for a directory.
pub const INDEX: &'static str = "index.html";

/// Serves the files of an embedded tree.
#[derive(Clone, Copy)]
pub struct StaticFiles {
    dir: &'static Dir<'static>,
    options: Options,
    rank: isize,
}

/// What a `StaticFiles` holds.
pub struct StaticFilesView {
    pub root: Dir<'static>,
    pub options: Options,
    pub rank: int,
}

impl View for StaticFiles {
    type V = StaticFilesView;

    closed spec fn view(&self) -> StaticFilesView {
        StaticFilesView { root: *self.dir, options: self.options, rank: self.rank as int }
    }
}

impl From<&'static Dir<'static>> for StaticFiles {
    /// A responder for the tree `dir` under the default options, at the
    /// default rank.
    fn from(dir: &'static Dir<'static>) -> (files: Self)
        ensures
            files@.root == *dir,
            files@.options.index,
            !files@.options.dot_files,
            !files@.options.normalize_dirs,
            files@.rank == DEFAULT_RANK,
    {
        Self { dir, options: Options::default(), rank: DEFAULT_RANK }
    }
}

impl vstd::std_specs::convert::FromSpecImpl<&'static Dir<'static>> for StaticFiles {
    open spec fn obeys_from_spec() -> bool {
        true
    }

    closed spec fn from_spec(dir: &'static Dir<'static>) -> Self {
        StaticFiles {
            dir,
            options: Options { index: true, dot_files: false, normalize_dirs: false },
            rank: DEFAULT_RANK,
        }
    }
}

/// The answer, under `options`, to a request for `uri` whose path below the
/// mount point is made of `segments`, from a tree with the files `files` and
/// the directories `dirs`.
///
/// Segments that may not be looked up are passed on. The empty path names
/// the root of the tree, a directory. Any other path is looked up among the
/// directories first, then among the files. A directory is answered with
/// what is settled without its index, else with the file `index.html` in it.
pub open spec fn answer(
    files: Map<Seq<char>, Seq<u8>>,
    dirs: Set<Seq<char>>,
    options: Options,
    segments: Seq<Seq<char>>,
    uri: UriView,
) -> OutcomeView {
    if !segments_allowed(segments, options.dot_files) {
        OutcomeView::Forward
    } else if joined(segments).len() == 0 || dirs.contains(joined(segments)) {
        match settled(options, uri) {
            Some(outcome) => outcome,
            None => served(INDEX@, held(files, joined(segments.push(INDEX@)))),
        }
    } else {
        served(segments.last(), held(files, joined(segments)))
    }
}

/// Whether a segment is `.` or `..`, or begins with a dot while dot files are
/// not served.
pub open spec fn is_dot_segment(segment: Seq<char>, dot_files: bool) -> bool {
    ||| segment == seq!['.']
    ||| segment == seq!['.', '.']
    ||| (!dot_files && segment.len() > 0 && segment[0] == '.')
}

/// Whether the path made of `segments` names a directory that may be looked
/// up: the root of the tree, which is the empty path, or a path among `dirs`.
pub open spec fn names_directory(
    dirs: Set<Seq<char>>,
    dot_files: bool,
    segments: Seq<Seq<char>>,
) -> bool {
    &&& segments_allowed(segments, dot_files)
    &&& (joined(segments).len() == 0 || dirs.contains(joined(segments)))
}

/// Whether the path made of `segments` names a file that may be looked up: a
/// path among `files` that is no directory.
pub open spec fn names_file(
    files: Map<Seq<char>, Seq<u8>>,
    dirs: Set<Seq<char>>,
    dot_files: bool,
    segments: Seq<Seq<char>>,
) -> bool {
    &&& segments_allowed(segments, dot_files)
    &&& joined(segments).len() > 0
    &&& !dirs.contains(joined(segments))
    &&& files.dom().contains(joined(segments))
}

/// A request is passed on where its path holds a segment `.` or `..`, or a
/// segment that begins with a dot while dot files are not served.
pub proof fn lemma_dot_segment_forwards(
    files: Map<Seq<char>, Seq<u8>>,
    dirs: Set<Seq<char>>,
    options: Options,
    segments: Seq<Seq<char>>,
    uri: UriView,
)
    requires
        exists|i: int|
            0 <= i < segments.len() && is_dot_segment(#[trigger] segments[i], options.dot_files),
    ensures
        answer(files, dirs, options, segments, uri) == OutcomeView::Forward,
{
}

/// A request is passed on where its path holds an empty segment.
pub proof fn lemma_empty_segment_forwards(
    files: Map<Seq<char>, Seq<u8>>,
    dirs: Set<Seq<char>>,
    options: Options,
    segments: Seq<Seq<char>>,
    uri: UriView,
)
    requires
        exists|i: int| 0 <= i < segments.len() && (#[trigger] segments[i]).len() == 0,
    ensures
        answer(files, dirs, options, segments, uri) == OutcomeView::Forward,
{
}

/// A path that names a file is answered with the bytes of that file as the
/// tree holds them. The content type is the one that the table of extensions
/// gives for the extension of the last segment; without an extension there
/// is none.
pub proof fn lemma_file_is_served(
    files: Map<Seq<char>, Seq<u8>>,
    dirs: Set<Seq<char>>,
    options: Options,
    segments: Seq<Seq<char>>,
    uri: UriView,
)
    requires
        names_file(files, dirs, options.dot_files, segments),
    ensures
        answer(files, dirs, options, segments, uri) matches OutcomeView::Success(response) && {
            &&& response.body == files[joined(segments)]
            &&& response.content_type == match extension_of(segments.last()) {
                Some(extension) => known_content_type(extension),
                None => None,
            }
        },
{
}

/// Where directory paths are normalized, the path of a directory without a
/// trailing slash is answered with a redirect to the same URI with the slash
/// appended to its path, whether or not the directory has an index.
pub proof fn lemma_directory_is_normalized(
    files: Map<Seq<char>, Seq<u8>>,
    dirs: Set<Seq<char>>,
    options: Options,
    segments: Seq<Seq<char>>,
    uri: UriView,
)
    requires
        names_directory(dirs, options.dot_files, segments),
        options.normalize_dirs,
        !ends_with_slash(uri.path),
    ensures
        answer(files, dirs, options, segments, uri) == OutcomeView::Redirect(
            UriView { path: uri.path + seq!['/'], query: uri.query },
        ),
{
    assert(uri.path.push('/') =~= uri.path + seq!['/']);
}

/// Where indexes are not served, the path of a directory is passed on,
/// whether or not the directory has an index. The one exception is the
/// redirect that normalizes the path, which comes first.
pub proof fn lemma_directory_without_index_forwards(
    files: Map<Seq<char>, Seq<u8>>,
    dirs: Set<Seq<char>>,
    options: Options,
    segments: Seq<Seq<char>>,
    uri: UriView,
)
    requires
        names_directory(dirs, options.dot_files, segments),
        !options.index,
        !options.normalize_dirs || ends_with_slash(uri.path),
    ensures
        answer(files, dirs, options, segments, uri) == OutcomeView::Forward,
{
}

/// Where indexes are served, the path of a directory is answered with the
/// `index.html` in that directory, and passed on where there is none. The one
/// exception is the redirect that normalizes the path, which comes first.
pub proof fn lemma_directory_index(
    files: Map<Seq<char>, Seq<u8>>,
    dirs: Set<Seq<char>>,
    options: Options,
    segments: Seq<Seq<char>>,
    uri: UriView,
)
    requires
        names_directory(dirs, options.dot_files, segments),
        options.index,
        !options.normalize_dirs || ends_with_slash(uri.path),
    ensures
        ({
            let index_path = if segments.len() == 0 {
                INDEX@
            } else {
                joined(segments) + seq!['/'] + INDEX@
            };
            answer(files, dirs, options, segments, uri) == if files.dom().contains(index_path) {
                OutcomeView::Success(
                    ResponseView { body: files[index_path], content_type: content_type_of(INDEX@) },
                )
            } else {
                OutcomeView::Forward
            }
        }),
{
    assert(segments.push(INDEX@).drop_last() =~= segments);
}

/// Where indexes are served and the root of the tree holds an `index.html`,
/// the mount point itself is answered with that file. The one exception is
/// the redirect that normalizes the path, which comes first.
pub proof fn lemma_root_index_is_served(
    files: Map<Seq<char>, Seq<u8>>,
    dirs: Set<Seq<char>>,
    options: Options,
    uri: UriView,
)
    requires
        options.index,
        files.dom().contains(INDEX@),
        !options.normalize_dirs || ends_with_slash(uri.path),
    ensures
        answer(files, dirs, options, Seq::empty(), uri) matches OutcomeView::Success(response)
            && response.body == files[INDEX@],
{
    lemma_directory_index(files, dirs, options, Seq::empty(), uri);
}

/// A path that names neither a directory nor a file is passed on.
pub proof fn lemma_missing_forwards(
    files: Map<Seq<char>, Seq<u8>>,
    dirs: Set<Seq<char>>,
    options: Options,
    segments: Seq<Seq<char>>,
    uri: UriView,
)
    requires
        joined(segments).len() > 0,
        !dirs.contains(joined(segments)),
        !files.dom().contains(joined(segments)),
    ensures
        answer(files, dirs, options, segments, uri) == OutcomeView::Forward,
{
}

/// Two answers of one responder to the same request are the same.
pub proof fn lemma_answers_repeat(
    responder: StaticFiles,
    segments: Seq<Seq<char>>,
    uri: UriView,
    first: Outcome,
    second: Outcome,
)
    requires
        first@ == responder.answer(segments, uri),
        second@ == responder.answer(segments, uri),
    ensures
        first@ == second@,
{
}

impl StaticFiles {
    /// A responder for the tree `dir` under `options`, at the default rank.
    pub fn new(dir: &'static Dir<'static>, options: Options) -> (files: Self)
        ensures
            files@.root == *dir,
            files@.options == options,
            files@.rank == DEFAULT_RANK,
    {
        Self { dir, options, rank: DEFAULT_RANK }
    }

    /// The same responder under other options.
    pub fn options(self, options: Options) -> (files: Self)
        ensures
            files@.root == self@.root,
            files@.options == options,
            files@.rank == self@.rank,
    {
        Self { dir: self.dir, options, rank: self.rank }
    }

    /// The same responder at another rank.
    pub fn rank(self, rank: isize) -> (files: Self)
        ensures
            files@.root == self@.root,
            files@.options == self@.options,
            files@.rank == rank,
    {
        Self { dir: self.dir, options: self.options, rank }
    }

    /// The tree that is served.
    pub fn root(&self) -> (dir: &'static Dir<'static>)
        ensures
            *dir == self@.root,
    {
        self.dir
    }

    /// The options that the tree is served under.
    pub fn active_options(&self) -> (options: Options)
        ensures
            options == self@.options,
    {
        self.options
    }

    /// The rank of the route.
    pub fn route_rank(&self) -> (rank: isize)
        ensures
            rank == self@.rank,
    {
        self.rank
    }

    /// The answer of this responder to a request for `uri` whose path below
    /// the mount point is made of `segments`.
    pub open spec fn answer(self, segments: Seq<Seq<char>>, uri: UriView) -> OutcomeView {
        answer(
            embedded_files(self@.root),
            embedded_dirs(self@.root),
            self@.options,
            segments,
            uri,
        )
    }

    /// Answers a request for `uri` whose path below the mount point is made
    /// of `segments`.
    pub fn handle(&self, segments: &[&str], uri: &Uri) -> (outcome: Outcome)
        ensures
            outcome@ == self.answer(segments.deep_view(), uri@),
    {
        let ghost all = segments.deep_view();
        let count = segments.len();
        let path = match relative_path(segments, self.options.dot_files) {
            Some(path) => path,
            None => {
                return Outcome::Forward;
            },
        };
        if path.as_str().is_empty() || has_dir(self.dir, path.as_str()) {
            match settle(self.options, uri) {
                Some(outcome) => outcome,
                None => {
                    let mut index_path = path;
                    if count > 0 {
                        index_path.append("/");
                    }
                    index_path.append(INDEX);
                    proof {
                        reveal_strlit("/");
                        assert(all.push(INDEX@).drop_last() =~= all);
                        assert("/"@ =~= seq!['/']);
                    }
                    serve(INDEX, find_file(self.dir, index_path.as_str()))
                },
            }
        } else {
            let name: &str = segments[count - 1];
            serve(name, find_file(self.dir, path.as_str()))
        }
    }
}

} // verus!
