//! Paths as they travel between client and server: relative to a root,
//! with `/` between their segments, and never climbing out of the root.

use vstd::prelude::*;
use vstd::std_specs::iter::IteratorSpec;
use crate::error::SyncError;

verus! {

broadcast use vstd::string::group_string_axioms;

/// Whether `c` separates the segments of a path. Both slashes count, so
/// that a path is judged alike on every platform.
pub open spec fn is_separator(c: char) -> bool {
    c == '/' || c == '\\'
}

/// Whether a segment that reads `..` starts at `at`: two dots between
/// separators or the ends of the path.
pub open spec fn parent_segment_at(path: Seq<char>, at: int) -> bool {
    &&& 0 <= at
    &&& at + 2 <= path.len()
    &&& path[at] == '.'
    &&& path[at + 1] == '.'
    &&& (at == 0 || is_separator(path[at - 1]))
    &&& (at + 2 == path.len() || is_separator(path[at + 2]))
}

/// Whether some segment of `path` reads `..`.
pub open spec fn has_parent_segment(path: Seq<char>) -> bool {
    exists|at: int| parent_segment_at(path, at)
}

/// Whether `path` starts at a root rather than at the directory it is
/// joined to.
pub open spec fn is_rooted(path: Seq<char>) -> bool {
    path.len() > 0 && is_separator(path[0])
}

/// Whether `path` may be joined to a root directory: it names something,
/// does not start at a root of its own, and no segment of it climbs to a
/// parent directory.
pub open spec fn is_safe_relative(path: Seq<char>) -> bool {
    path.len() > 0 && !is_rooted(path) && !has_parent_segment(path)
}

/// Returns whether `path` may be joined to a root directory.
pub fn is_safe(path: &str) -> (ok: bool)
    ensures
        ok == is_safe_relative(path@),
{
    let mut chars = path.chars();
    let ghost mut seen: int = 0;
    let ghost mut segment: int = 0;
    // 0: the segment is empty so far; 1: it reads `.`; 2: it reads `..`;
    // 3: it reads anything else.
    let mut run: u8 = 0;
    let mut found = false;
    let mut rooted = false;
    let mut empty = true;
    loop
        invariant
            0 <= segment <= seen <= path@.len(),
            chars.remaining() == path@.skip(seen),
            chars.obeys_prophetic_iter_laws(),
            chars.decrease() is Some,
            segment == 0 || is_separator(path@[segment - 1]),
            forall|k: int| segment <= k < seen ==> !is_separator(#[trigger] path@[k]),
            run <= 3,
            run == 0 <==> seen == segment,
            run == 1 <==> seen == segment + 1 && path@[segment] == '.',
            run == 2 <==> seen == segment + 2 && path@[segment] == '.' && path@[segment + 1]
                == '.',
            found <==> exists|at: int| parent_segment_at(path@, at) && at < segment,
            empty <==> seen == 0,
            rooted <==> seen > 0 && is_separator(path@[0]),
        ensures
            seen == path@.len(),
        decreases chars.decrease()->0,
    {
        let ghost before = chars;
        let next = chars.next();
        match next {
            None => {
                break;
            },
            Some(c) => {
                assert(c == path@[seen]);
                if c == '/' || c == '\\' {
                    if empty {
                        rooted = true;
                    }
                    proof {
                        if run == 2 {
                            assert(parent_segment_at(path@, segment));
                        }
                        if exists|at: int| parent_segment_at(path@, at) && at < seen + 1 {
                            let at = choose|at: int| parent_segment_at(path@, at) && at < seen + 1;
                            if at >= segment {
                                if at > segment {
                                    assert(!is_separator(path@[at - 1]));
                                }
                                assert(at == segment);
                                assert(!is_separator(path@[segment + 1]));
                                if segment + 2 < seen {
                                    assert(!is_separator(path@[segment + 2]));
                                }
                            }
                        }
                    }
                    found = found || run == 2;
                    run = 0;
                    proof {
                        segment = seen + 1;
                    }
                } else if c == '.' && run < 2 {
                    run = run + 1;
                } else {
                    run = 3;
                }
                empty = false;
                proof {
                    seen = seen + 1;
                    assert(path@.skip(seen - 1).drop_first() =~= path@.skip(seen));
                }
            },
        }
    }
    proof {
        if run == 2 {
            assert(parent_segment_at(path@, segment));
        }
        if has_parent_segment(path@) && !found {
            let at = choose|at: int| parent_segment_at(path@, at);
            if at > segment {
                assert(!is_separator(path@[at - 1]));
            }
            assert(at == segment);
        }
    }
    !empty && !rooted && !found && run != 2
}

/// The path of `relative` below `root`: the two joined by one `/`, which is
/// left out where `root` is empty or ends in a separator already.
pub open spec fn joined(root: Seq<char>, relative: Seq<char>) -> Seq<char> {
    if root.len() == 0 || is_separator(root.last()) {
        root + relative
    } else {
        root + seq!['/'] + relative
    }
}

/// Joins `relative` to `root`, after it has made sure that `relative` stays
/// below `root`. A path that is empty, rooted or climbs to a parent
/// directory is a [`SyncError::UnsafePath`].
pub fn join(root: &str, relative: &str) -> (path: Result<String, SyncError>)
    ensures
        match path {
            Ok(p) => is_safe_relative(relative@) && p@ == joined(root@, relative@),
            Err(e) => !is_safe_relative(relative@) && e == SyncError::UnsafePath,
        },
{
    if !is_safe(relative) {
        return Err(SyncError::UnsafePath);
    }
    let mut path = String::from_str(root);
    let len = root.unicode_len();
    if len > 0 {
        let last = root.get_char(len - 1);
        if !(last == '/' || last == '\\') {
            proof {
                reveal_strlit("/");
            }
            path.append("/");
            assert(path@ =~= root@ + seq!['/']);
        }
    }
    path.append(relative);
    Ok(path)
}

/// Whether `segment` is the name of one file or directory: not empty, free
/// of separators, and neither `.` nor `..`.
pub open spec fn is_plain_name(segment: Seq<char>) -> bool {
    &&& segment.len() > 0
    &&& forall|k: int| 0 <= k < segment.len() ==> !is_separator(#[trigger] segment[k])
    &&& segment != seq!['.']
    &&& segment != seq!['.', '.']
}

/// Returns whether `segment` is the name of one file or directory.
pub fn is_name(segment: &str) -> (ok: bool)
    ensures
        ok == is_plain_name(segment@),
{
    let mut chars = segment.chars();
    let ghost mut seen: int = 0;
    // The number of characters seen, counted up to three.
    let mut count: u8 = 0;
    let mut dots_only = true;
    let mut separated = false;
    loop
        invariant
            0 <= seen <= segment@.len(),
            chars.remaining() == segment@.skip(seen),
            chars.obeys_prophetic_iter_laws(),
            chars.decrease() is Some,
            count <= 3,
            count < 3 ==> count == seen,
            count == 3 ==> seen >= 3,
            dots_only <==> forall|k: int| 0 <= k < seen ==> #[trigger] segment@[k] == '.',
            separated <==> exists|k: int| 0 <= k < seen && is_separator(#[trigger] segment@[k]),
        ensures
            seen == segment@.len(),
        decreases chars.decrease()->0,
    {
        match chars.next() {
            None => {
                break;
            },
            Some(c) => {
                assert(c == segment@[seen]);
                if c == '/' || c == '\\' {
                    separated = true;
                }
                if c != '.' {
                    dots_only = false;
                }
                if count < 3 {
                    count = count + 1;
                }
                proof {
                    seen = seen + 1;
                    assert(segment@.skip(seen - 1).drop_first() =~= segment@.skip(seen));
                }
            },
        }
    }
    proof {
        if dots_only && count == 1 {
            assert(segment@ =~= seq!['.']);
        }
        if dots_only && count == 2 {
            assert(segment@ =~= seq!['.', '.']);
        }
        if segment@ == seq!['.'] || segment@ == seq!['.', '.'] {
            assert(forall|k: int| 0 <= k < seen ==> #[trigger] segment@[k] == '.');
        }
    }
    count > 0 && !separated && !(dots_only && count <= 2)
}

/// The segments joined into one path, a `/` between each two.
pub open spec fn joined_segments(segments: Seq<Seq<char>>) -> Seq<char>
    decreases segments.len(),
{
    if segments.len() == 0 {
        Seq::empty()
    } else if segments.len() == 1 {
        segments[0]
    } else {
        joined_segments(segments.drop_last()) + seq!['/'] + segments.last()
    }
}

/// Whether `segments` name a file below a root, one directory after the
/// other: there is at least one, and each is a plain name.
pub open spec fn are_plain_names(segments: Seq<Seq<char>>) -> bool {
    &&& segments.len() > 0
    &&& forall|i: int| 0 <= i < segments.len() ==> is_plain_name(#[trigger] segments[i])
}

/// The texts that `segments` hold.
pub open spec fn texts(segments: Seq<String>) -> Seq<Seq<char>> {
    segments.map_values(|s: String| s@)
}

/// Plain names joined by `/` make a path that may be joined to a root.
pub proof fn lemma_joined_names_are_safe(segments: Seq<Seq<char>>)
    requires
        are_plain_names(segments),
    ensures
        is_safe_relative(joined_segments(segments)),
        !is_separator(joined_segments(segments).last()),
    decreases segments.len(),
{
    let path = joined_segments(segments);
    let name = segments.last();
    if segments.len() == 1 {
        assert(path == name);
        assert(!is_separator(name[0]));
        assert(!is_separator(name[name.len() - 1]));
        assert forall|at: int| !parent_segment_at(path, at) by {
            if parent_segment_at(path, at) {
                if at > 0 {
                    assert(!is_separator(name[at - 1]));
                }
                if at + 2 < name.len() {
                    assert(!is_separator(name[at + 2]));
                }
                assert(name =~= seq!['.', '.']);
            }
        }
    } else {
        let front = segments.drop_last();
        let head = joined_segments(front);
        assert(are_plain_names(front)) by {
            assert forall|i: int| 0 <= i < front.len() implies is_plain_name(
                #[trigger] front[i],
            ) by {
                assert(front[i] == segments[i]);
            }
        }
        lemma_joined_names_are_safe(front);
        assert(path == head + seq!['/'] + name);
        let start = head.len() + 1;
        assert(path[0] == head[0]);
        assert(path.last() == name[name.len() - 1]);
        assert(!is_separator(name[name.len() - 1]));
        assert(forall|k: int| 0 <= k < head.len() ==> path[k] == head[k]);
        assert(forall|k: int| 0 <= k < name.len() ==> path[start + k] == name[k]);
        assert forall|at: int| !parent_segment_at(path, at) by {
            if parent_segment_at(path, at) {
                if at + 2 <= head.len() {
                    assert(parent_segment_at(head, at));
                } else if at < start {
                    assert(path[head.len() as int] == '/');
                } else {
                    if at > start {
                        assert(!is_separator(name[at - 1 - start]));
                    }
                    if at + 2 < path.len() {
                        assert(!is_separator(name[at + 2 - start]));
                    }
                    assert(name =~= seq!['.', '.']);
                }
            }
        }
    }
}

/// Builds the path of a file from the names that lead to it, joined by `/`
/// whatever the platform writes between them. Names that are empty, hold a
/// separator or read `.` or `..` are a [`SyncError::UnsafePath`], and so is
/// an empty list. The path built may be joined to a root.
pub fn from_segments(segments: &Vec<String>) -> (path: Result<String, SyncError>)
    ensures
        match path {
            Ok(p) => are_plain_names(texts(segments@)) && p@ == joined_segments(texts(segments@))
                && is_safe_relative(p@),
            Err(e) => !are_plain_names(texts(segments@)) && e == SyncError::UnsafePath,
        },
{
    let ghost names = texts(segments@);
    if segments.len() == 0 {
        return Err(SyncError::UnsafePath);
    }
    let mut path = String::new();
    let mut i: usize = 0;
    while i < segments.len()
        invariant
            0 <= i <= segments.len(),
            names == texts(segments@),
            names.len() == segments@.len(),
            forall|k: int| 0 <= k < i ==> is_plain_name(#[trigger] names[k]),
            path@ == joined_segments(names.take(i as int)),
        decreases segments.len() - i,
    {
        let segment = segments[i].as_str();
        assert(segment@ == names[i as int]);
        if !is_name(segment) {
            return Err(SyncError::UnsafePath);
        }
        if i > 0 {
            proof {
                reveal_strlit("/");
            }
            path.append("/");
        }
        path.append(segment);
        proof {
            let taken = names.take(i + 1);
            assert(taken.drop_last() =~= names.take(i as int));
            assert(taken.last() == names[i as int]);
            if i > 0 {
                assert(path@ =~= joined_segments(names.take(i as int)) + seq!['/'] + names[i as int]);
            } else {
                assert(path@ =~= names[i as int]);
            }
        }
        i += 1;
    }
    proof {
        assert(names.take(i as int) =~= names);
        lemma_joined_names_are_safe(names);
    }
    Ok(path)
}

} // verus!
