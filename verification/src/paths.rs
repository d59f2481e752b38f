//! Paths as text, with `/` between their segments.
//!
//! A path is read the way a Unix file system reads it: empty segments and
//! `.` segments name nothing, every other segment is a name.

use crate::text::{chars_of, string_of};
use vstd::prelude::*;

verus! {

/// The pieces of `path` between its separators. There is always at least
/// one, and none holds a separator.
pub open spec fn split(path: Seq<char>) -> Seq<Seq<char>>
    decreases path.len(),
{
    if path.len() == 0 {
        seq![Seq::<char>::empty()]
    } else {
        let front = split(path.drop_last());
        if path.last() == '/' {
            front.push(Seq::<char>::empty())
        } else {
            front.drop_last().push(front.last().push(path.last()))
        }
    }
}

/// A segment that names something: not empty and not `.`.
pub open spec fn is_name(segment: Seq<char>) -> bool {
    segment.len() > 0 && segment != seq!['.']
}

/// [`is_name`] as a predicate to filter with.
pub open spec fn naming() -> spec_fn(Seq<char>) -> bool {
    |segment: Seq<char>| is_name(segment)
}

/// The names along `path`, in order.
pub open spec fn names(path: Seq<char>) -> Seq<Seq<char>> {
    split(path).filter(naming())
}

/// The segments put together with one separator between neighbours.
pub open spec fn join(segments: Seq<Seq<char>>) -> Seq<char>
    decreases segments.len(),
{
    if segments.len() == 0 {
        Seq::<char>::empty()
    } else if segments.len() == 1 {
        segments[0]
    } else {
        join(segments.drop_last()) + seq!['/'] + segments.last()
    }
}

/// `path` reduced to its names.
pub open spec fn normal(path: Seq<char>) -> Seq<char> {
    join(names(path))
}

/// The last name of `path`, unless there is none or the path ends in `..`.
pub open spec fn last_name(path: Seq<char>) -> Option<Seq<char>> {
    let all = names(path);
    if all.len() > 0 && all.last() != seq!['.', '.'] {
        Some(all.last())
    } else {
        None
    }
}

/// `rest` adjoined to `base`: a `rest` that starts at the root stands alone;
/// otherwise it follows `base`, behind a separator where `base` does not end
/// in one already.
pub open spec fn adjoin(base: Seq<char>, rest: Seq<char>) -> Seq<char> {
    if rest.len() > 0 && rest[0] == '/' {
        rest
    } else if base.len() == 0 || base.last() == '/' {
        base + rest
    } else {
        base + seq!['/'] + rest
    }
}

/// What the text of each segment is.
pub open spec fn texts(segments: Seq<Vec<char>>) -> Seq<Seq<char>> {
    segments.map_values(|segment: Vec<char>| segment@)
}

fn names_of(path: &Vec<char>) -> (found: Vec<Vec<char>>)
    ensures
        texts(found@) == names(path@),
{
    let mut found: Vec<Vec<char>> = Vec::new();
    let mut current: Vec<char> = Vec::new();
    let mut i: usize = 0;
    while i < path.len()
        invariant
            i <= path.len(),
            split(path@.take(i as int)).len() > 0,
            texts(found@) == split(path@.take(i as int)).drop_last().filter(naming()),
            current@ == split(path@.take(i as int)).last(),
        decreases path.len() - i,
    {
        let c = path[i];
        let ghost before = split(path@.take(i as int));
        proof {
            assert(path@.take(i + 1).drop_last() == path@.take(i as int));
        }
        if c == '/' {
            proof {
                assert(before.push(Seq::<char>::empty()).drop_last() == before);
                assert(before == before.drop_last().push(current@));
                before.drop_last().lemma_filter_push(current@, naming());
            }
            if current.len() > 0 && !(current.len() == 1 && current[0] == '.') {
                proof {
                    assert(current@ != seq!['.']) by {
                        if current@.len() == 1 {
                            assert(current@[0] != seq!['.'][0]);
                        }
                    }
                }
                found.push(current);
            } else {
                proof {
                    assert(!is_name(current@)) by {
                        if current.len() == 1 {
                            assert(current@ == seq!['.']);
                        }
                    }
                }
            }
            current = Vec::new();
        } else {
            proof {
                assert(before.drop_last().push(before.last().push(c)).drop_last()
                    == before.drop_last());
            }
            current.push(c);
        }
        i += 1;
    }
    proof {
        assert(path@.take(path.len() as int) == path@);
        let all = split(path@);
        assert(all == all.drop_last().push(current@));
        all.drop_last().lemma_filter_push(current@, naming());
    }
    if current.len() > 0 && !(current.len() == 1 && current[0] == '.') {
        proof {
            assert(current@ != seq!['.']) by {
                if current@.len() == 1 {
                    assert(current@[0] != seq!['.'][0]);
                }
            }
        }
        found.push(current);
    } else {
        proof {
            assert(!is_name(current@)) by {
                if current.len() == 1 {
                    assert(current@ == seq!['.']);
                }
            }
        }
    }
    found
}

fn join_names(segments: &Vec<Vec<char>>) -> (path: String)
    ensures
        path@ == join(texts(segments@)),
{
    let mut path = String::new();
    let mut i: usize = 0;
    while i < segments.len()
        invariant
            i <= segments.len(),
            path@ == join(texts(segments@).take(i as int)),
        decreases segments.len() - i,
    {
        let ghost done = texts(segments@).take(i as int);
        let ghost next = texts(segments@).take(i + 1);
        proof {
            assert(next.drop_last() == done);
        }
        if i > 0 {
            path.push('/');
        }
        let piece = string_of(&segments[i], 0, segments[i].len());
        path.append(piece.as_str());
        i += 1;
    }
    proof {
        assert(texts(segments@).take(segments.len() as int) == texts(segments@));
    }
    path
}

/// Reduces `path` to its names: `a//b/./c/` becomes `a/b/c`.
pub fn normalize(path: &str) -> (reduced: String)
    ensures
        reduced@ == normal(path@),
{
    let chars = chars_of(path);
    let found = names_of(&chars);
    join_names(&found)
}

/// The last name of `path`, as [`last_name`] reads it.
pub fn file_name(path: &str) -> (name: Option<String>)
    ensures
        match name {
            Some(text) => last_name(path@) == Some(text@),
            None => last_name(path@) is None,
        },
{
    let chars = chars_of(path);
    let found = names_of(&chars);
    if found.len() == 0 {
        return None;
    }
    let last = &found[found.len() - 1];
    if last.len() == 2 && last[0] == '.' && last[1] == '.' {
        proof {
            assert(last@ == seq!['.', '.']);
        }
        None
    } else {
        proof {
            assert(last@ != seq!['.', '.']) by {
                if last@.len() == 2 {
                    assert(last@[0] != seq!['.', '.'][0] || last@[1] != seq!['.', '.'][1]);
                }
            }
        }
        Some(string_of(last, 0, last.len()))
    }
}

/// Adjoins `rest` to `base`, as [`adjoin`] reads them.
pub fn join_path(base: &str, rest: &str) -> (joined: String)
    ensures
        joined@ == adjoin(base@, rest@),
{
    let base_len: usize = base.unicode_len();
    let rest_len: usize = rest.unicode_len();
    if rest_len > 0 && rest.get_char(0) == '/' {
        return rest.to_string();
    }
    let mut joined = base.to_string();
    if base_len > 0 && base.get_char(base_len - 1) != '/' {
        joined.push('/');
    }
    joined.append(rest);
    joined
}

/// A segment that holds no separator.
pub open spec fn plain(segment: Seq<char>) -> bool {
    forall|i: int| 0 <= i < segment.len() ==> segment[i] != '/'
}

/// Segments that are all names and hold no separator.
pub open spec fn clean(segments: Seq<Seq<char>>) -> bool {
    forall|k: int| 0 <= k < segments.len() ==> plain(#[trigger] segments[k]) && is_name(segments[k])
}

/// A separator and a plain segment behind a path add that segment to its
/// pieces.
pub proof fn lemma_split_append(front: Seq<char>, segment: Seq<char>)
    requires
        plain(segment),
    ensures
        split(front + seq!['/'] + segment) == split(front).push(segment),
    decreases segment.len(),
{
    let whole = front + seq!['/'] + segment;
    if segment.len() == 0 {
        assert(whole.drop_last() == front);
        assert(segment == Seq::<char>::empty());
    } else {
        let shorter = segment.drop_last();
        lemma_split_append(front, shorter);
        assert(whole.drop_last() == front + seq!['/'] + shorter);
        assert(shorter.push(segment.last()) == segment);
    }
}

/// A plain segment is its own only piece.
pub proof fn lemma_split_plain(segment: Seq<char>)
    requires
        plain(segment),
    ensures
        split(segment) == seq![segment],
    decreases segment.len(),
{
    if segment.len() > 0 {
        let shorter = segment.drop_last();
        lemma_split_plain(shorter);
        assert(shorter.push(segment.last()) == segment);
    } else {
        assert(segment == Seq::<char>::empty());
    }
}

/// Joining plain segments and splitting again gives the segments back.
pub proof fn lemma_split_join(segments: Seq<Seq<char>>)
    requires
        segments.len() > 0,
        forall|k: int| 0 <= k < segments.len() ==> plain(#[trigger] segments[k]),
    ensures
        split(join(segments)) == segments,
    decreases segments.len(),
{
    if segments.len() == 1 {
        lemma_split_plain(segments[0]);
    } else {
        let front = segments.drop_last();
        assert forall|k: int| 0 <= k < front.len() implies plain(#[trigger] front[k]) by {
            assert(front[k] == segments[k]);
        }
        lemma_split_join(front);
        lemma_split_append(join(front), segments.last());
    }
}

/// Filtering segments that are all names keeps every one of them.
pub proof fn lemma_names_kept(segments: Seq<Seq<char>>)
    requires
        forall|k: int| 0 <= k < segments.len() ==> is_name(#[trigger] segments[k]),
    ensures
        segments.filter(naming()) == segments,
    decreases segments.len(),
{
    if segments.len() > 0 {
        let front = segments.drop_last();
        assert forall|k: int| 0 <= k < front.len() implies is_name(#[trigger] front[k]) by {
            assert(front[k] == segments[k]);
        }
        lemma_names_kept(front);
        assert(front.push(segments.last()) == segments);
        front.lemma_filter_push(segments.last(), naming());
    } else {
        reveal(Seq::filter);
    }
}

/// A path written as clean segments with single separators is already
/// reduced: its names are those segments, whatever their number.
pub proof fn lemma_normal_of_clean(segments: Seq<Seq<char>>)
    requires
        clean(segments),
    ensures
        names(join(segments)) == segments,
        normal(join(segments)) == join(segments),
{
    if segments.len() == 0 {
        reveal_with_fuel(Seq::filter, 2);
        assert(split(join(segments)) == seq![Seq::<char>::empty()]);
    } else {
        lemma_split_join(segments);
        lemma_names_kept(segments);
    }
}

} // verus!
