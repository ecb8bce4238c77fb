//! Text as sequences of characters: white space, trimming, and splitting on a
//! separator.
//!
//! The specifications speak of `Seq<char>`, the view of `str` and `String`.
//! The executable functions walk the characters once and cut the results out
//! of the text they were given.

use vstd::prelude::*;

verus! {

/// Whether `c` is white space: one of the code points that carry the Unicode
/// property `White_Space`.
pub open spec fn is_space(c: char) -> bool {
    let n = c as u32;
    ||| 0x09 <= n <= 0x0d
    ||| n == 0x20
    ||| n == 0x85
    ||| n == 0xa0
    ||| n == 0x1680
    ||| 0x2000 <= n <= 0x200a
    ||| n == 0x2028
    ||| n == 0x2029
    ||| n == 0x202f
    ||| n == 0x205f
    ||| n == 0x3000
}

/// `s` without its leading white space.
pub open spec fn trimmed_start(s: Seq<char>) -> Seq<char>
    decreases s.len(),
{
    if s.len() > 0 && is_space(s.first()) {
        trimmed_start(s.drop_first())
    } else {
        s
    }
}

/// `s` without its trailing white space.
pub open spec fn trimmed_end(s: Seq<char>) -> Seq<char>
    decreases s.len(),
{
    if s.len() > 0 && is_space(s.last()) {
        trimmed_end(s.drop_last())
    } else {
        s
    }
}

/// `s` without its leading and trailing white space.
pub open spec fn trimmed(s: Seq<char>) -> Seq<char> {
    trimmed_end(trimmed_start(s))
}

/// The index of the first `c` in `s`, or the length of `s` where it holds none.
pub open spec fn position(s: Seq<char>, c: char) -> nat
    decreases s.len(),
{
    if s.len() == 0 || s.first() == c {
        0
    } else {
        1 + position(s.drop_first(), c)
    }
}

/// The pieces of `s` between occurrences of `sep`, in order. A text with `n`
/// separators has `n + 1` pieces, some of which may be empty.
pub open spec fn pieces(s: Seq<char>, sep: char) -> Seq<Seq<char>>
    decreases s.len(),
{
    let at = position(s, sep);
    if at >= s.len() {
        seq![s]
    } else {
        seq![s.take(at as int)] + pieces(s.skip(at as int + 1), sep)
    }
}

/// How often `c` stands in `s`.
pub open spec fn count_of(s: Seq<char>, c: char) -> nat
    decreases s.len(),
{
    if s.len() == 0 {
        0
    } else if s.first() == c {
        1 + count_of(s.drop_first(), c)
    } else {
        count_of(s.drop_first(), c)
    }
}

/// The texts of `parts` written one after the other with `sep` between them.
pub open spec fn joined(parts: Seq<Seq<char>>, sep: char) -> Seq<char>
    decreases parts.len(),
{
    if parts.len() == 0 {
        Seq::empty()
    } else if parts.len() == 1 {
        parts.first()
    } else {
        parts.first() + seq![sep] + joined(parts.drop_first(), sep)
    }
}

/// Each piece of `s` stripped of the white space around it.
pub open spec fn trimmed_pieces(s: Seq<char>, sep: char) -> Seq<Seq<char>> {
    pieces(s, sep).map_values(|piece: Seq<char>| trimmed(piece))
}

/// Tells whether `c` is white space.
pub fn is_whitespace(c: char) -> (b: bool)
    ensures
        b == is_space(c),
{
    let n: u32 = c as u32;
    (0x09 <= n && n <= 0x0d) || n == 0x20 || n == 0x85 || n == 0xa0 || n == 0x1680 || (0x2000 <= n
        && n <= 0x200a) || n == 0x2028 || n == 0x2029 || n == 0x202f || n == 0x205f || n == 0x3000
}

/// Collects the characters of `s` into a vector, in order.
pub fn chars_of(s: &str) -> (chars: Vec<char>)
    ensures
        chars@ == s@,
{
    let mut chars: Vec<char> = Vec::new();
    for c in it: s.chars()
        invariant
            it.seq() == s@,
            chars@ == s@.take(it.index()),
    {
        chars.push(c);
    }
    chars
}

/// Tells whether two texts hold the same characters.
pub fn same_text(a: &str, b: &str) -> (same: bool)
    ensures
        same == (a@ == b@),
{
    let left = chars_of(a);
    let right = chars_of(b);
    if left.len() != right.len() {
        return false;
    }
    let mut i: usize = 0;
    while i < left.len()
        invariant
            i <= left.len(),
            left.len() == right.len(),
            left@ == a@,
            right@ == b@,
            forall|j: int| 0 <= j < i ==> left[j] == right[j],
        decreases left.len() - i,
    {
        if left[i] != right[i] {
            return false;
        }
        i += 1;
    }
    assert(left@ =~= right@);
    true
}

/// The bounds of what stays of `chars[from..to]` once the white space around
/// it is cut off.
fn trimmed_bounds(chars: &Vec<char>, from: usize, to: usize) -> (bounds: (usize, usize))
    requires
        from <= to <= chars.len(),
    ensures
        from <= bounds.0 <= bounds.1 <= to,
        chars@.subrange(bounds.0 as int, bounds.1 as int) == trimmed(
            chars@.subrange(from as int, to as int),
        ),
{
    let ghost whole = chars@.subrange(from as int, to as int);
    let mut start: usize = from;
    while start < to && is_whitespace(chars[start])
        invariant
            from <= start <= to <= chars.len(),
            whole == chars@.subrange(from as int, to as int),
            trimmed_start(whole) == trimmed_start(chars@.subrange(start as int, to as int)),
        decreases to - start,
    {
        proof {
            let rest = chars@.subrange(start as int, to as int);
            assert(rest.drop_first() =~= chars@.subrange(start + 1, to as int));
        }
        start += 1;
    }
    let ghost tail = chars@.subrange(start as int, to as int);
    assert(trimmed_start(whole) == tail);
    let mut end: usize = to;
    while start < end && is_whitespace(chars[end - 1])
        invariant
            start <= end <= to <= chars.len(),
            tail == chars@.subrange(start as int, to as int),
            trimmed_end(tail) == trimmed_end(chars@.subrange(start as int, end as int)),
        decreases end - start,
    {
        proof {
            let rest = chars@.subrange(start as int, end as int);
            assert(rest.drop_last() =~= chars@.subrange(start as int, end - 1));
        }
        end -= 1;
    }
    (start, end)
}

/// Returns `s` without the white space at its start and at its end.
pub fn trim(s: &str) -> (out: String)
    ensures
        out@ == trimmed(s@),
{
    let chars = chars_of(s);
    let (start, end) = trimmed_bounds(&chars, 0, chars.len());
    assert(chars@.subrange(0, chars.len() as int) =~= s@);
    s.substring_char(start, end).to_owned()
}

/// Where the first `c` stands in `s`: at `at`, when no character before `at`
/// is `c` and `at` is the end of `s` or holds a `c`.
pub proof fn lemma_position_is(s: Seq<char>, c: char, at: int)
    requires
        0 <= at <= s.len(),
        forall|j: int| 0 <= j < at ==> s[j] != c,
        at < s.len() ==> s[at] == c,
    ensures
        position(s, c) == at,
    decreases at,
{
    if at > 0 {
        assert(s[0] != c);
        lemma_position_is(s.drop_first(), c, at - 1);
    }
}

/// `position` stays within `s`, passes over no `c`, and stops on one unless
/// it reaches the end.
pub proof fn lemma_position_bounds(s: Seq<char>, c: char)
    ensures
        position(s, c) <= s.len(),
        forall|j: int| 0 <= j < position(s, c) ==> s[j] != c,
        position(s, c) < s.len() ==> s[position(s, c) as int] == c,
    decreases s.len(),
{
    if s.len() > 0 && s.first() != c {
        lemma_position_bounds(s.drop_first(), c);
        assert forall|j: int| 0 <= j < position(s, c) implies s[j] != c by {
            if j > 0 {
                assert(s[j] == s.drop_first()[j - 1]);
            }
        }
    }
}

/// Splits `s` at every `sep` and returns the pieces in order, the empty ones
/// too.
pub fn split(s: &str, sep: char) -> (out: Vec<String>)
    ensures
        out.deep_view() == pieces(s@, sep),
{
    let chars = chars_of(s);
    let mut out: Vec<String> = Vec::new();
    let mut start: usize = 0;
    let mut i: usize = 0;
    assert(s@.skip(0) =~= s@);
    assert(out.deep_view() + pieces(s@.skip(0), sep) =~= pieces(s@, sep));
    while i < chars.len()
        invariant
            start <= i <= chars.len(),
            chars@ == s@,
            forall|j: int| start <= j < i ==> chars[j] != sep,
            out.deep_view() + pieces(s@.skip(start as int), sep) == pieces(s@, sep),
        decreases chars.len() - i,
    {
        if chars[i] == sep {
            let piece = s.substring_char(start, i).to_owned();
            proof {
                let rest = s@.skip(start as int);
                lemma_position_is(rest, sep, i - start);
                assert(rest.take(i - start) =~= s@.subrange(start as int, i as int));
                assert(rest.skip(i - start + 1) =~= s@.skip(i + 1));
                assert(out.deep_view().push(piece@) + pieces(s@.skip(i + 1), sep) =~= out.deep_view()
                    + pieces(rest, sep));
            }
            let ghost before = out.deep_view();
            out.push(piece);
            assert(out.deep_view() =~= before.push(piece@));
            start = i + 1;
        }
        i += 1;
    }
    let piece = s.substring_char(start, chars.len()).to_owned();
    proof {
        let rest = s@.skip(start as int);
        lemma_position_is(rest, sep, chars.len() - start);
        assert(rest =~= s@.subrange(start as int, chars.len() as int));
        assert(out.deep_view().push(piece@) =~= out.deep_view() + pieces(rest, sep));
    }
    let ghost before = out.deep_view();
    out.push(piece);
    assert(out.deep_view() =~= before.push(piece@));
    out
}

/// Splits `s` at every `sep` and strips each piece of the white space around
/// it.
pub fn split_trimmed(s: &str, sep: char) -> (out: Vec<String>)
    ensures
        out.deep_view() == trimmed_pieces(s@, sep),
{
    let raw = split(s, sep);
    let mut out: Vec<String> = Vec::new();
    let mut i: usize = 0;
    while i < raw.len()
        invariant
            i <= raw.len(),
            raw.deep_view() == pieces(s@, sep),
            out.len() == i,
            forall|k: int| 0 <= k < i ==> out[k]@ == trimmed(#[trigger] raw[k]@),
        decreases raw.len() - i,
    {
        let piece = trim(raw[i].as_str());
        out.push(piece);
        i += 1;
    }
    assert(out.deep_view() =~= trimmed_pieces(s@, sep)) by {
        assert forall|k: int| 0 <= k < out.len() implies out.deep_view()[k] == trimmed_pieces(
            s@,
            sep,
        )[k] by {
            assert(raw.deep_view()[k] == raw[k]@);
        }
    }
    out
}

/// Whether `s` neither starts nor ends with white space.
pub open spec fn has_no_outer_space(s: Seq<char>) -> bool {
    s.len() > 0 ==> !is_space(s.first()) && !is_space(s.last())
}

/// What `trimmed_start` leaves is the end of `s`, everything before it is
/// white space, and it does not start with white space.
pub proof fn lemma_trimmed_start_cut(s: Seq<char>) -> (from: int)
    ensures
        0 <= from <= s.len(),
        trimmed_start(s) == s.skip(from),
        forall|j: int| 0 <= j < from ==> is_space(s[j]),
        from < s.len() ==> !is_space(s[from]),
    decreases s.len(),
{
    if s.len() > 0 && is_space(s.first()) {
        let inner = lemma_trimmed_start_cut(s.drop_first());
        assert(s.drop_first().skip(inner) =~= s.skip(inner + 1));
        assert forall|j: int| 0 <= j < inner + 1 implies is_space(s[j]) by {
            if j > 0 {
                assert(s[j] == s.drop_first()[j - 1]);
            }
        }
        inner + 1
    } else {
        assert(s.skip(0) =~= s);
        0
    }
}

/// What `trimmed_end` leaves is the start of `s`, everything after it is
/// white space, and it does not end with white space.
pub proof fn lemma_trimmed_end_cut(s: Seq<char>) -> (to: int)
    ensures
        0 <= to <= s.len(),
        trimmed_end(s) == s.take(to),
        forall|j: int| to <= j < s.len() ==> is_space(s[j]),
        0 < to ==> !is_space(s[to - 1]),
    decreases s.len(),
{
    if s.len() > 0 && is_space(s.last()) {
        let inner = lemma_trimmed_end_cut(s.drop_last());
        assert(s.drop_last().take(inner) =~= s.take(inner));
        assert forall|j: int| inner <= j < s.len() implies is_space(s[j]) by {
            if j < s.len() - 1 {
                assert(s[j] == s.drop_last()[j]);
            }
        }
        inner
    } else {
        assert(s.take(s.len() as int) =~= s);
        s.len() as int
    }
}

/// Trimming cuts `s` down to one stretch of it: all that is cut off is white
/// space, and what stays neither starts nor ends with white space.
pub proof fn lemma_trimmed_cut(s: Seq<char>) -> (bounds: (int, int))
    ensures
        0 <= bounds.0 <= bounds.1 <= s.len(),
        trimmed(s) == s.subrange(bounds.0, bounds.1),
        forall|j: int| 0 <= j < bounds.0 ==> is_space(s[j]),
        forall|j: int| bounds.1 <= j < s.len() ==> is_space(s[j]),
        has_no_outer_space(trimmed(s)),
{
    let from = lemma_trimmed_start_cut(s);
    let rest = s.skip(from);
    let kept = lemma_trimmed_end_cut(rest);
    assert(rest.take(kept) =~= s.subrange(from, from + kept));
    assert forall|j: int| from + kept <= j < s.len() implies is_space(s[j]) by {
        assert(s[j] == rest[j - from]);
    }
    (from, from + kept)
}

/// A text is cut into at least one piece.
pub proof fn lemma_pieces_len(s: Seq<char>, sep: char)
    ensures
        pieces(s, sep).len() >= 1,
    decreases s.len(),
{
    let at = position(s, sep);
    if at < s.len() {
        lemma_pieces_len(s.skip(at as int + 1), sep);
    }
}

/// A text has one piece more than it has separators.
pub proof fn lemma_pieces_count(s: Seq<char>, sep: char)
    ensures
        pieces(s, sep).len() == 1 + count_of(s, sep),
    decreases s.len(),
{
    if s.len() > 0 {
        let rest = s.drop_first();
        lemma_pieces_count(rest, sep);
        if s.first() == sep {
            assert(s.skip(1) =~= rest);
        } else {
            let at = position(s, sep);
            lemma_position_bounds(rest, sep);
            if at < s.len() {
                assert(s.skip(at as int + 1) =~= rest.skip(at as int));
            }
        }
    }
}

/// No piece holds the separator.
pub proof fn lemma_pieces_hold_no_separator(s: Seq<char>, sep: char)
    ensures
        forall|k: int, j: int|
            0 <= k < pieces(s, sep).len() && 0 <= j < pieces(s, sep)[k].len() ==> pieces(
                s,
                sep,
            )[k][j] != sep,
    decreases s.len(),
{
    let at = position(s, sep);
    lemma_position_bounds(s, sep);
    if at < s.len() {
        let rest = pieces(s.skip(at as int + 1), sep);
        lemma_pieces_hold_no_separator(s.skip(at as int + 1), sep);
        assert forall|k: int, j: int|
            0 <= k < pieces(s, sep).len() && 0 <= j < pieces(s, sep)[k].len() implies pieces(
            s,
            sep,
        )[k][j] != sep by {
            if k > 0 {
                assert(pieces(s, sep)[k] == rest[k - 1]);
            }
        }
    }
}

/// Joining the pieces of a text with the separator gives the text back:
/// splitting loses nothing and keeps the order.
pub proof fn lemma_joined_pieces(s: Seq<char>, sep: char)
    ensures
        joined(pieces(s, sep), sep) == s,
    decreases s.len(),
{
    let at = position(s, sep);
    lemma_position_bounds(s, sep);
    if at < s.len() {
        let head = s.take(at as int);
        let rest = pieces(s.skip(at as int + 1), sep);
        lemma_pieces_len(s.skip(at as int + 1), sep);
        lemma_joined_pieces(s.skip(at as int + 1), sep);
        let all = seq![head] + rest;
        assert(all.drop_first() =~= rest);
        assert(all.first() == head);
        assert(head + seq![sep] + s.skip(at as int + 1) =~= s);
    }
}

/// Splitting what was joined gives the parts back, where there is at least
/// one part and none of them holds the separator.
pub proof fn lemma_pieces_of_joined(parts: Seq<Seq<char>>, sep: char)
    requires
        parts.len() >= 1,
        forall|k: int, j: int| 0 <= k < parts.len() && 0 <= j < parts[k].len() ==> parts[k][j] != sep,
    ensures
        pieces(joined(parts, sep), sep) == parts,
    decreases parts.len(),
{
    let head = parts.first();
    if parts.len() == 1 {
        lemma_position_is(head, sep, head.len() as int);
        assert(seq![head] =~= parts);
    } else {
        let others = parts.drop_first();
        let whole = joined(parts, sep);
        assert forall|k: int, j: int|
            0 <= k < others.len() && 0 <= j < others[k].len() implies others[k][j] != sep by {
            assert(others[k] == parts[k + 1]);
        }
        lemma_pieces_of_joined(others, sep);
        assert(whole == head + seq![sep] + joined(others, sep));
        assert forall|j: int| 0 <= j < head.len() implies whole[j] != sep by {
            assert(whole[j] == head[j]);
        }
        lemma_position_is(whole, sep, head.len() as int);
        assert(whole.take(head.len() as int) =~= head);
        assert(whole.skip(head.len() as int + 1) =~= joined(others, sep));
        assert(seq![head] + others =~= parts);
    }
}

/// No trimmed piece starts or ends with white space.
pub proof fn lemma_trimmed_pieces_have_no_outer_space(s: Seq<char>, sep: char)
    ensures
        trimmed_pieces(s, sep).len() == pieces(s, sep).len(),
        forall|k: int|
            0 <= k < trimmed_pieces(s, sep).len() ==> has_no_outer_space(
                #[trigger] trimmed_pieces(s, sep)[k],
            ),
{
    assert forall|k: int| 0 <= k < trimmed_pieces(s, sep).len() implies has_no_outer_space(
        #[trigger] trimmed_pieces(s, sep)[k],
    ) by {
        let _ = lemma_trimmed_cut(pieces(s, sep)[k]);
    }
}

} // verus!
