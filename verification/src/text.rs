//! Searching and rewriting text, stated over sequences of characters.

use vstd::prelude::*;

verus! {

/// `needle` stands in `hay` at position `at`.
pub open spec fn occurs_at(hay: Seq<char>, needle: Seq<char>, at: int) -> bool {
    &&& 0 <= at
    &&& at + needle.len() <= hay.len()
    &&& hay.subrange(at, at + needle.len()) == needle
}

/// `needle` stands somewhere in `hay`.
pub open spec fn contains(hay: Seq<char>, needle: Seq<char>) -> bool {
    exists|at: int| occurs_at(hay, needle, at)
}

/// `to` in front of `text`, between every two of its characters and behind
/// it.
pub open spec fn interleaved(text: Seq<char>, to: Seq<char>) -> Seq<char>
    decreases text.len(),
{
    if text.len() == 0 {
        to
    } else {
        interleaved(text.drop_last(), to) + seq![text.last()] + to
    }
}

/// `text` with every occurrence of `from` replaced by `to`, reading left to
/// right: an occurrence is replaced where it starts, and the search goes on
/// behind it, so occurrences that overlap an earlier one are not seen.
/// An empty `from` occurs in front of every character and at the end.
pub open spec fn replace_all(text: Seq<char>, from: Seq<char>, to: Seq<char>) -> Seq<char>
    decreases text.len(),
{
    if from.len() == 0 {
        interleaved(text, to)
    } else if text.len() < from.len() {
        text
    } else if text.subrange(0, from.len() as int) == from {
        to + replace_all(text.subrange(from.len() as int, text.len() as int), from, to)
    } else {
        seq![text[0]] + replace_all(text.subrange(1, text.len() as int), from, to)
    }
}

/// An optional text as an optional character sequence.
pub open spec fn text_view(text: Option<String>) -> Option<Seq<char>> {
    match text {
        Some(text) => Some(text@),
        None => None,
    }
}

/// `String::push` appends one character.
pub assume_specification[ String::push ](text: &mut String, c: char)
    ensures
        final(text)@ == old(text)@.push(c),
;

/// The characters of a string, one by one.
pub fn chars_of(text: &str) -> (chars: Vec<char>)
    ensures
        chars@ == text@,
{
    let mut chars: Vec<char> = Vec::new();
    for c in it: text.chars()
        invariant
            chars@ == text@.take(it.index() as int),
            it.seq() == text@,
    {
        chars.push(c);
    }
    chars
}

/// The string made of the characters `chars[from..to]`.
pub(crate) fn string_of(chars: &Vec<char>, from: usize, to: usize) -> (text: String)
    requires
        from <= to <= chars.len(),
    ensures
        text@ == chars@.subrange(from as int, to as int),
{
    let mut text = String::new();
    let mut i: usize = from;
    while i < to
        invariant
            from <= i <= to <= chars.len(),
            text@ == chars@.subrange(from as int, i as int),
        decreases to - i,
    {
        text.push(chars[i]);
        i += 1;
    }
    text
}

/// Whether `needle` stands in `hay` at `at`.
pub fn matches_at(hay: &Vec<char>, needle: &Vec<char>, at: usize) -> (found: bool)
    ensures
        found == occurs_at(hay@, needle@, at as int),
{
    if needle.len() > hay.len() || at > hay.len() - needle.len() {
        return false;
    }
    let mut k: usize = 0;
    while k < needle.len()
        invariant
            k <= needle.len(),
            at + needle.len() <= hay.len(),
            hay@.subrange(at as int, at + k) == needle@.take(k as int),
        decreases needle.len() - k,
    {
        if hay[at + k] != needle[k] {
            return false;
        }
        k += 1;
    }
    assert(needle@.take(needle.len() as int) == needle@);
    true
}

/// The first position at or behind `from` where `needle` stands in `hay`.
pub fn find_from(hay: &Vec<char>, needle: &Vec<char>, from: usize) -> (found: Option<usize>)
    ensures
        match found {
            Some(at) => {
                &&& from <= at
                &&& occurs_at(hay@, needle@, at as int)
                &&& forall|j: int| from <= j < at ==> !occurs_at(hay@, needle@, j)
            },
            None => forall|j: int| from <= j ==> !occurs_at(hay@, needle@, j),
        },
{
    if needle.len() > hay.len() {
        return None;
    }
    let last: usize = hay.len() - needle.len();
    let mut i: usize = from;
    while i <= last
        invariant
            from <= i,
            last == hay.len() - needle.len(),
            forall|j: int| from <= j < i ==> !occurs_at(hay@, needle@, j),
        decreases last + 1 - i,
    {
        if matches_at(hay, needle, i) {
            return Some(i);
        }
        if i == last {
            return None;
        }
        i += 1;
    }
    None
}

/// Whether `needle` stands somewhere in `hay`.
pub fn str_contains(hay: &str, needle: &str) -> (found: bool)
    ensures
        found == contains(hay@, needle@),
{
    let hay_chars = chars_of(hay);
    let needle_chars = chars_of(needle);
    find_from(&hay_chars, &needle_chars, 0).is_some()
}

/// Replaces every occurrence of `from` in `text` by `to`, as
/// [`replace_all`] reads them.
pub fn str_replace(text: &str, from: &str, to: &str) -> (replaced: String)
    ensures
        replaced@ == replace_all(text@, from@, to@),
{
    let chars = chars_of(text);
    let pattern = chars_of(from);
    let n: usize = chars.len();
    let m: usize = pattern.len();
    if m == 0 {
        let mut replaced = to.to_string();
        let mut i: usize = 0;
        while i < n
            invariant
                i <= n,
                n == chars.len(),
                replaced@ == interleaved(chars@.take(i as int), to@),
            decreases n - i,
        {
            proof {
                assert(chars@.take(i + 1).drop_last() == chars@.take(i as int));
            }
            replaced.push(chars[i]);
            replaced.append(to);
            i += 1;
        }
        proof {
            assert(chars@.take(n as int) == chars@);
        }
        return replaced;
    }
    if n < m {
        return text.to_string();
    }
    let mut replaced = String::new();
    let mut i: usize = 0;
    assert(chars@.subrange(0, n as int) == text@);
    while i <= n - m
        invariant
            i <= n,
            n == chars.len(),
            m == pattern.len(),
            0 < m <= n,
            chars@ == text@,
            pattern@ == from@,
            replaced@ + replace_all(chars@.subrange(i as int, n as int), from@, to@)
                == replace_all(text@, from@, to@),
        decreases n - i,
    {
        let ghost rest = chars@.subrange(i as int, n as int);
        if matches_at(&chars, &pattern, i) {
            assert(rest.subrange(0, m as int) == chars@.subrange(i as int, i + m));
            assert(rest.subrange(m as int, rest.len() as int) == chars@.subrange(i + m, n as int));
            replaced.append(to);
            i += m;
        } else {
            assert(rest.subrange(0, m as int) == chars@.subrange(i as int, i + m));
            assert(rest.subrange(1, rest.len() as int) == chars@.subrange(i + 1, n as int));
            replaced.push(chars[i]);
            i += 1;
        }
    }
    let tail = string_of(&chars, i, n);
    replaced.append(tail.as_str());
    replaced
}

/// Where `from` does not stand in `text`, replacing changes nothing.
pub proof fn lemma_replace_absent(text: Seq<char>, from: Seq<char>, to: Seq<char>)
    requires
        !contains(text, from),
    ensures
        replace_all(text, from, to) == text,
    decreases text.len(),
{
    if from.len() == 0 {
        assert(text.subrange(0, 0) == from);
        assert(occurs_at(text, from, 0));
    } else if from.len() <= text.len() {
        let m = from.len() as int;
        let tail = text.subrange(1, text.len() as int);
        assert(text.subrange(0, m) != from) by {
            if text.subrange(0, m) == from {
                assert(occurs_at(text, from, 0));
            }
        }
        assert(!contains(tail, from)) by {
            if contains(tail, from) {
                let j = choose|j: int| occurs_at(tail, from, j);
                assert(text.subrange(j + 1, j + 1 + m) == tail.subrange(j, j + m));
                assert(occurs_at(text, from, j + 1));
            }
        }
        lemma_replace_absent(tail, from, to);
    }
}

/// A text that holds `from` exactly once, between `before` and `after`, is
/// rewritten to `before`, then `to`, then `after`.
pub proof fn lemma_replace_single(
    before: Seq<char>,
    from: Seq<char>,
    to: Seq<char>,
    after: Seq<char>,
)
    requires
        from.len() > 0,
        forall|j: int| occurs_at(before + from + after, from, j) ==> j == before.len(),
    ensures
        replace_all(before + from + after, from, to) == before + to + after,
    decreases before.len(),
{
    let text = before + from + after;
    let m = from.len() as int;
    if before.len() == 0 {
        assert(text.subrange(0, m) == from);
        assert(text.subrange(m, text.len() as int) == after);
        assert(!contains(after, from)) by {
            if contains(after, from) {
                let j = choose|j: int| occurs_at(after, from, j);
                assert(text.subrange(j + m, j + m + m) == after.subrange(j, j + m));
                assert(occurs_at(text, from, j + m));
            }
        }
        lemma_replace_absent(after, from, to);
    } else {
        let shorter = before.drop_first();
        let tail = text.subrange(1, text.len() as int);
        assert(tail == shorter + from + after);
        assert(text.subrange(0, m) != from) by {
            if text.subrange(0, m) == from {
                assert(occurs_at(text, from, 0));
            }
        }
        assert forall|j: int| occurs_at(tail, from, j) implies j == shorter.len() by {
            assert(text.subrange(j + 1, j + 1 + m) == tail.subrange(j, j + m));
            assert(occurs_at(text, from, j + 1));
        }
        lemma_replace_single(shorter, from, to, after);
    }
}

/// After the single occurrence of `from` was replaced by `to`, `from` can
/// stand in the result only where it touches the text put in: none is left
/// wholly in front of it or wholly behind it.
pub proof fn lemma_replace_single_touches(
    before: Seq<char>,
    from: Seq<char>,
    to: Seq<char>,
    after: Seq<char>,
    at: int,
)
    requires
        from.len() > 0,
        forall|j: int| occurs_at(before + from + after, from, j) ==> j == before.len(),
        occurs_at(before + to + after, from, at),
    ensures
        before.len() < at + from.len(),
        at < before.len() + to.len(),
{
    let text = before + from + after;
    let result = before + to + after;
    let m = from.len() as int;
    if at + m <= before.len() {
        assert(text.subrange(at, at + m) == result.subrange(at, at + m));
        assert(occurs_at(text, from, at));
    }
    if at >= before.len() + to.len() {
        let shifted = at - to.len() + m;
        assert(text.subrange(shifted, shifted + m) == result.subrange(at, at + m));
        assert(occurs_at(text, from, shifted));
    }
}

/// The pieces put together with `sep` between neighbours.
pub open spec fn joined(pieces: Seq<Seq<char>>, sep: Seq<char>) -> Seq<char>
    decreases pieces.len(),
{
    if pieces.len() == 0 {
        Seq::<char>::empty()
    } else if pieces.len() == 1 {
        pieces[0]
    } else {
        pieces[0] + sep + joined(pieces.drop_first(), sep)
    }
}

/// `sep` stands behind `piece` and nowhere before in the two together.
pub open spec fn ends_piece(piece: Seq<char>, sep: Seq<char>) -> bool {
    forall|j: int| occurs_at(piece + sep, sep, j) ==> j == piece.len()
}

/// The pieces are what a reader from left to right finds between the
/// occurrences of `sep`: `sep` ends every piece but the last, and the last
/// holds none.
pub open spec fn cut_by(pieces: Seq<Seq<char>>, sep: Seq<char>) -> bool {
    &&& pieces.len() > 0
    &&& forall|i: int| 0 <= i < pieces.len() - 1 ==> ends_piece(#[trigger] pieces[i], sep)
    &&& !contains(pieces.last(), sep)
}

/// Where the piece `i` starts in [`joined`].
pub open spec fn piece_start(pieces: Seq<Seq<char>>, sep: Seq<char>, i: int) -> int
    decreases i,
{
    if i <= 0 {
        0
    } else {
        pieces[0].len() + sep.len() + piece_start(pieces.drop_first(), sep, i - 1)
    }
}

/// The stretch of `len` characters at `at` lies wholly in one of the pieces
/// of [`joined`].
pub open spec fn in_a_piece(pieces: Seq<Seq<char>>, sep: Seq<char>, at: int, len: int) -> bool {
    exists|i: int|
        0 <= i < pieces.len() && #[trigger] piece_start(pieces, sep, i) <= at && at + len
            <= piece_start(pieces, sep, i) + pieces[i].len()
}

/// The first occurrence of `from` is replaced, and the rewriting goes on
/// behind it.
pub proof fn lemma_replace_first(
    front: Seq<char>,
    from: Seq<char>,
    to: Seq<char>,
    rest: Seq<char>,
)
    requires
        from.len() > 0,
        ends_piece(front, from),
    ensures
        replace_all(front + from + rest, from, to) == front + to + replace_all(rest, from, to),
    decreases front.len(),
{
    let text = front + from + rest;
    let m = from.len() as int;
    if front.len() == 0 {
        assert(text.subrange(0, m) == from);
        assert(text.subrange(m, text.len() as int) == rest);
        assert(front + to + replace_all(rest, from, to) == to + replace_all(rest, from, to));
    } else {
        let shorter = front.drop_first();
        let tail = text.subrange(1, text.len() as int);
        assert(tail == shorter + from + rest);
        assert(text.subrange(0, m) != from) by {
            if text.subrange(0, m) == from {
                assert((front + from).subrange(0, m) == text.subrange(0, m));
                assert(occurs_at(front + from, from, 0));
            }
        }
        assert forall|j: int| occurs_at(shorter + from, from, j) implies j == shorter.len() by {
            assert((front + from).subrange(j + 1, j + 1 + m) == (shorter + from).subrange(j, j + m));
            assert(occurs_at(front + from, from, j + 1));
        }
        lemma_replace_first(shorter, from, to, rest);
        assert(seq![text[0]] + (shorter + to + replace_all(rest, from, to)) == front + to
            + replace_all(rest, from, to));
    }
}

/// Every occurrence is replaced in one pass: a text whose pieces between
/// the occurrences of `from` are `pieces` is rewritten to the same pieces
/// with `to` between them, however many occurrences there are.
pub proof fn lemma_replace_each(pieces: Seq<Seq<char>>, from: Seq<char>, to: Seq<char>)
    requires
        from.len() > 0,
        cut_by(pieces, from),
    ensures
        replace_all(joined(pieces, from), from, to) == joined(pieces, to),
    decreases pieces.len(),
{
    if pieces.len() == 1 {
        lemma_replace_absent(pieces[0], from, to);
    } else {
        let rest = pieces.drop_first();
        assert(rest.last() == pieces.last());
        assert forall|i: int| 0 <= i < rest.len() - 1 implies ends_piece(
            #[trigger] rest[i],
            from,
        ) by {
            assert(rest[i] == pieces[i + 1]);
        }
        lemma_replace_each(rest, from, to);
        assert(ends_piece(pieces[0], from));
        lemma_replace_first(pieces[0], from, to, joined(rest, from));
    }
}

/// Each piece stands in [`joined`] where [`piece_start`] says.
pub proof fn lemma_piece_stands(pieces: Seq<Seq<char>>, sep: Seq<char>, i: int)
    requires
        0 <= i < pieces.len(),
    ensures
        0 <= piece_start(pieces, sep, i),
        piece_start(pieces, sep, i) + pieces[i].len() <= joined(pieces, sep).len(),
        joined(pieces, sep).subrange(
            piece_start(pieces, sep, i),
            piece_start(pieces, sep, i) + pieces[i].len(),
        ) == pieces[i],
    decreases i,
{
    let whole = joined(pieces, sep);
    if pieces.len() == 1 {
        assert(whole.subrange(0, pieces[0].len() as int) == pieces[0]);
    } else if i == 0 {
        assert(whole.subrange(0, pieces[0].len() as int) == pieces[0]);
    } else {
        let rest = pieces.drop_first();
        lemma_piece_stands(rest, sep, i - 1);
        let shift = pieces[0].len() + sep.len();
        let start = piece_start(rest, sep, i - 1);
        assert(rest[i - 1] == pieces[i]);
        assert(whole.subrange(shift + start, shift + start + pieces[i].len()) == joined(
            rest,
            sep,
        ).subrange(start, start + pieces[i].len()));
    }
}

/// After the rewriting of [`lemma_replace_each`] no occurrence of `from` is
/// left over from the text before: in the result `from` stands wholly
/// inside none of the pieces, so it can stand only where it touches a `to`
/// that was put in.
pub proof fn lemma_replace_each_touches(
    pieces: Seq<Seq<char>>,
    from: Seq<char>,
    to: Seq<char>,
    at: int,
)
    requires
        from.len() > 0,
        cut_by(pieces, from),
        occurs_at(joined(pieces, to), from, at),
    ensures
        !in_a_piece(pieces, to, at, from.len() as int),
{
    let m = from.len() as int;
    if in_a_piece(pieces, to, at, m) {
        let i = choose|i: int|
            0 <= i < pieces.len() && #[trigger] piece_start(pieces, to, i) <= at && at + m
                <= piece_start(pieces, to, i) + pieces[i].len();
        lemma_piece_stands(pieces, to, i);
        let start = piece_start(pieces, to, i);
        let inner = at - start;
        assert(pieces[i].subrange(inner, inner + m) == joined(pieces, to).subrange(at, at + m));
        assert(occurs_at(pieces[i], from, inner));
        if i < pieces.len() - 1 {
            assert((pieces[i] + from).subrange(inner, inner + m) == pieces[i].subrange(
                inner,
                inner + m,
            ));
            assert(occurs_at(pieces[i] + from, from, inner));
        }
    }
}

} // verus!
