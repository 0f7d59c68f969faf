//! Request paths: which segments may be looked up, the path they form, and
//! the extension of a file name.

use vstd::prelude::*;

verus! {

/// Whether a segment of a request path may be looked up in the tree.
///
/// An empty segment, `.` and `..` never are; a segment that begins with a
/// dot is only where dot files are served.
pub open spec fn segment_allowed(segment: Seq<char>, dot_files: bool) -> bool {
    &&& segment.len() > 0
    &&& segment != seq!['.']
    &&& segment != seq!['.', '.']
    &&& (dot_files || segment[0] != '.')
}

/// Whether every segment of a request path may be looked up.
pub open spec fn segments_allowed(segments: Seq<Seq<char>>, dot_files: bool) -> bool {
    forall|i: int| 0 <= i < segments.len() ==> segment_allowed(#[trigger] segments[i], dot_files)
}

/// The relative path that segments form: the segments in order, with one `/`
/// between each two neighbours.
pub open spec fn joined(segments: Seq<Seq<char>>) -> Seq<char>
    decreases segments.len(),
{
    if segments.len() == 0 {
        Seq::empty()
    } else if segments.len() == 1 {
        segments[0]
    } else {
        joined(segments.drop_last()) + seq!['/'] + segments.last()
    }
}

/// The index of the last dot in `name`, or -1 where it holds none.
pub open spec fn last_dot(name: Seq<char>) -> int
    decreases name.len(),
{
    if name.len() == 0 {
        -1
    } else if name.last() == '.' {
        name.len() - 1
    } else {
        last_dot(name.drop_last())
    }
}

/// The extension of a file name: what follows its last dot. A name without a
/// dot has none, nor has one whose only dot is its first character, nor
/// has `..`.
pub open spec fn extension_of(name: Seq<char>) -> Option<Seq<char>> {
    let dot = last_dot(name);
    if dot <= 0 || name == seq!['.', '.'] {
        None
    } else {
        Some(name.skip(dot + 1))
    }
}

/// Whether a path ends in `/`.
pub open spec fn ends_with_slash(path: Seq<char>) -> bool {
    path.len() > 0 && path.last() == '/'
}

/// `last_dot` finds a dot after which no dot follows, or -1 where there is
/// no dot at all.
pub proof fn lemma_last_dot(name: Seq<char>)
    ensures
        -1 <= last_dot(name) < name.len(),
        last_dot(name) >= 0 ==> name[last_dot(name)] == '.',
        forall|i: int| last_dot(name) < i < name.len() ==> name[i] != '.',
    decreases name.len(),
{
    if name.len() > 0 && name.last() != '.' {
        let front = name.drop_last();
        lemma_last_dot(front);
        assert forall|i: int| last_dot(name) < i < name.len() implies name[i] != '.' by {
            if i < front.len() {
                assert(name[i] == front[i]);
            }
        }
    }
}

/// The extension of a name is what follows its last dot, where that dot is
/// not the first character of the name and the name is not `..`.
pub proof fn lemma_extension_follows_last_dot(name: Seq<char>, dot: int)
    requires
        0 < dot < name.len(),
        name[dot] == '.',
        forall|i: int| dot < i < name.len() ==> name[i] != '.',
        name != seq!['.', '.'],
    ensures
        extension_of(name) == Some(name.skip(dot + 1)),
{
    lemma_last_dot(name);
}

/// A name has no extension where it holds no dot after its first character.
pub proof fn lemma_extension_needs_inner_dot(name: Seq<char>)
    requires
        forall|i: int| 0 < i < name.len() ==> name[i] != '.',
    ensures
        extension_of(name) is None,
{
    lemma_last_dot(name);
}

/// Segments of which none is empty form the empty path only where there is
/// no segment at all.
pub proof fn lemma_joined_is_empty(segments: Seq<Seq<char>>)
    requires
        forall|i: int| 0 <= i < segments.len() ==> (#[trigger] segments[i]).len() > 0,
    ensures
        joined(segments).len() == 0 <==> segments.len() == 0,
{
    if segments.len() > 0 {
        assert(segments[0].len() > 0);
    }
}

/// Decides whether one segment may be looked up.
pub fn is_allowed_segment(segment: &str, dot_files: bool) -> (allowed: bool)
    ensures
        allowed == segment_allowed(segment@, dot_files),
{
    let len: usize = segment.unicode_len();
    if len == 0 {
        return false;
    }
    if segment.get_char(0) != '.' {
        return true;
    }
    if len == 1 {
        assert(segment@ =~= seq!['.']);
        return false;
    }
    if len == 2 && segment.get_char(1) == '.' {
        assert(segment@ =~= seq!['.', '.']);
        return false;
    }
    dot_files
}

/// Forms the relative path of a request from its segments, or refuses them.
///
/// The path is `None` as soon as one segment may not be looked up; else it
/// is the segments joined by `/`, empty where there is no segment.
pub fn relative_path(segments: &[&str], dot_files: bool) -> (path: Option<String>)
    ensures
        path is Some <==> segments_allowed(segments.deep_view(), dot_files),
        path matches Some(p) ==> p@ == joined(segments.deep_view()),
{
    let ghost all = segments.deep_view();
    let mut path = String::new();
    let mut i: usize = 0;
    while i < segments.len()
        invariant
            i <= segments.len(),
            all == segments.deep_view(),
            all.len() == segments.len(),
            segments_allowed(all.take(i as int), dot_files),
            path@ == joined(all.take(i as int)),
        decreases segments.len() - i,
    {
        let segment: &str = segments[i];
        assert(segment@ == all[i as int]);
        if !is_allowed_segment(segment, dot_files) {
            return None;
        }
        if i > 0 {
            path.append("/");
        }
        path.append(segment);
        proof {
            reveal_strlit("/");
            assert(all.take(i + 1).drop_last() =~= all.take(i as int));
            assert("/"@ =~= seq!['/']);
        }
        i += 1;
    }
    proof {
        assert(all.take(i as int) =~= all);
    }
    Some(path)
}

/// Finds the extension of a file name.
pub fn extension(name: &str) -> (ext: Option<&str>)
    ensures
        ext.deep_view() == extension_of(name@),
{
    let len: usize = name.unicode_len();
    let mut dot: usize = 0;
    let mut seen: bool = false;
    let mut i: usize = 0;
    for c in it: name.chars()
        invariant
            it.seq() == name@,
            i == it.index(),
            len == name@.len(),
            seen ==> dot < i,
            last_dot(name@.take(i as int)) == if seen { dot as int } else { -1 },
    {
        proof {
            assert(name@.take(i + 1).drop_last() =~= name@.take(i as int));
        }
        if c == '.' {
            dot = i;
            seen = true;
        }
        i += 1;
    }
    proof {
        assert(name@.take(i as int) =~= name@);
        lemma_last_dot(name@);
    }
    if !seen || dot == 0 {
        return None;
    }
    if len == 2 && name.get_char(0) == '.' {
        assert(name@ =~= seq!['.', '.']);
        return None;
    }
    let ext = name.substring_char(dot + 1, len);
    assert(ext@ =~= name@.skip(dot + 1));
    Some(ext)
}

/// Decides whether a path ends in `/`.
pub fn has_trailing_slash(path: &str) -> (ends: bool)
    ensures
        ends == ends_with_slash(path@),
{
    let len: usize = path.unicode_len();
    len > 0 && path.get_char(len - 1) == '/'
}

} // verus!
