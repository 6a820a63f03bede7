//! Splitting text into fields at a separator character, and joining fields
//! with a separator.

use vstd::prelude::*;
use vstd::string::*;

verus! {

/// The index of the first `c` in `s`, or `s.len()` when `s` holds none.
pub open spec fn first_index(s: Seq<char>, c: char) -> int
    decreases s.len(),
{
    if s.len() == 0 {
        0
    } else if s[0] == c {
        0
    } else {
        1 + first_index(s.drop_first(), c)
    }
}

/// The fields of `s` between occurrences of `sep`, in order. There is always
/// at least one field; a text without `sep` is its own single field.
pub open spec fn split(s: Seq<char>, sep: char) -> Seq<Seq<char>>
    decreases s.len(),
{
    let i = first_index(s, sep);
    if i < 0 || i >= s.len() {
        seq![s]
    } else {
        seq![s.subrange(0, i)] + split(s.subrange(i + 1, s.len() as int), sep)
    }
}

/// Whether `c` occurs nowhere in `s`.
pub open spec fn free_of(s: Seq<char>, c: char) -> bool {
    forall|i: int| 0 <= i < s.len() ==> #[trigger] s[i] != c
}

/// A position that holds `c` and has no `c` before it is the first index.
pub proof fn lemma_first_index_is(s: Seq<char>, c: char, i: int)
    requires
        0 <= i <= s.len(),
        free_of(s.subrange(0, i), c),
        i < s.len() ==> s[i] == c,
    ensures
        first_index(s, c) == i,
    decreases s.len(),
{
    if s.len() != 0 {
        if i == 0 {
        } else {
            assert(s.subrange(0, i)[0] == s[0]);
            let t = s.drop_first();
            assert forall|j: int| 0 <= j < i - 1 implies #[trigger] t.subrange(0, i - 1)[j]
                != c by {
                assert(s.subrange(0, i)[j + 1] == t[j]);
            }
            lemma_first_index_is(t, c, i - 1);
        }
    }
}

/// A text without the separator is a single field.
pub proof fn lemma_split_single(s: Seq<char>, sep: char)
    requires
        free_of(s, sep),
    ensures
        split(s, sep) == seq![s],
{
    assert(s.subrange(0, s.len() as int) == s);
    lemma_first_index_is(s, sep, s.len() as int);
}

/// Splitting `head + sep + tail`, where `head` holds no separator, gives
/// `head` followed by the fields of `tail`.
pub proof fn lemma_split_cons(head: Seq<char>, sep: char, tail: Seq<char>)
    requires
        free_of(head, sep),
    ensures
        split(head + seq![sep] + tail, sep) == seq![head] + split(tail, sep),
{
    let s = head + seq![sep] + tail;
    let i = head.len() as int;
    assert(s.subrange(0, i) == head);
    assert(s[i] == sep);
    lemma_first_index_is(s, sep, i);
    assert(s.subrange(i + 1, s.len() as int) == tail);
}

/// The texts `parts` written one after another with `sep` between each two.
pub open spec fn join(parts: Seq<Seq<char>>, sep: Seq<char>) -> Seq<char>
    decreases parts.len(),
{
    if parts.len() == 0 {
        Seq::empty()
    } else if parts.len() == 1 {
        parts[0]
    } else {
        join(parts.drop_last(), sep) + sep + parts.last()
    }
}

/// The first position at or after `from` that holds `c`, or `text.len()`.
pub fn find_char(text: &Vec<char>, from: usize, c: char) -> (r: usize)
    requires
        from <= text.len(),
    ensures
        from <= r <= text.len(),
        r == from + first_index(text@.subrange(from as int, text.len() as int), c),
{
    let ghost tail = text@.subrange(from as int, text.len() as int);
    let mut i: usize = from;
    while i < text.len() && text[i] != c
        invariant
            from <= i <= text.len(),
            tail == text@.subrange(from as int, text.len() as int),
            free_of(tail.subrange(0, i - from), c),
        decreases text.len() - i,
    {
        assert forall|j: int| 0 <= j < i + 1 - from implies #[trigger] tail.subrange(
            0,
            i + 1 - from,
        )[j] != c by {
            if j < i - from {
                assert(tail.subrange(0, i - from)[j] == tail[j]);
            }
        }
        i += 1;
    }
    proof {
        lemma_first_index_is(tail, c, i - from);
    }
    i
}

/// The texts that the index ranges `ranges` cut out of `text`.
pub open spec fn cut(text: Seq<char>, ranges: Seq<(usize, usize)>) -> Seq<Seq<char>> {
    Seq::new(ranges.len(), |k: int| text.subrange(ranges[k].0 as int, ranges[k].1 as int))
}

/// The index ranges of the fields of `text` between occurrences of `sep`.
pub fn split_ranges(text: &Vec<char>, sep: char) -> (r: Vec<(usize, usize)>)
    ensures
        cut(text@, r@) == split(text@, sep),
        forall|k: int| 0 <= k < r.len() ==> (#[trigger] r[k]).0 <= r[k].1 <= text.len(),
{
    let mut r: Vec<(usize, usize)> = Vec::new();
    let mut start: usize = 0;
    let mut open: bool = true;
    assert(text@.subrange(0, text.len() as int) == text@);
    assert(cut(text@, r@) =~= Seq::<Seq<char>>::empty());
    while open
        invariant
            start <= text.len(),
            forall|k: int| 0 <= k < r.len() ==> (#[trigger] r[k]).0 <= r[k].1 <= text.len(),
            open ==> split(text@, sep) == cut(text@, r@) + split(
                text@.subrange(start as int, text.len() as int),
                sep,
            ),
            !open ==> split(text@, sep) == cut(text@, r@),
            open ==> r.len() <= start,
        decreases text.len() - start + (if open { 1int } else { 0int }),
    {
        let ghost tail = text@.subrange(start as int, text.len() as int);
        let ghost done = cut(text@, r@);
        let end = find_char(text, start, sep);
        r.push((start, end));
        assert(tail.subrange(0, end - start) == text@.subrange(start as int, end as int));
        if end == text.len() {
            open = false;
            assert(cut(text@, r@) =~= done + seq![tail]);
        } else {
            assert(tail.subrange(end - start + 1, tail.len() as int) == text@.subrange(
                end + 1,
                text.len() as int,
            ));
            assert(cut(text@, r@) =~= done + seq![tail.subrange(0, end - start)]);
            start = end + 1;
        }
    }
    r
}

/// Appends to `out` the strings `parts` with `sep` between each two.
pub fn push_joined(out: &mut String, parts: &Vec<String>, sep: &str)
    ensures
        final(out)@ == old(out)@ + join(texts(parts@), sep@),
{
    let mut i: usize = 0;
    assert(texts(parts@).subrange(0, 0) =~= Seq::<Seq<char>>::empty());
    assert(out@ =~= old(out)@ + join(texts(parts@).subrange(0, 0), sep@));
    while i < parts.len()
        invariant
            i <= parts.len(),
            out@ == old(out)@ + join(texts(parts@).subrange(0, i as int), sep@),
        decreases parts.len() - i,
    {
        let ghost before = texts(parts@).subrange(0, i as int);
        let ghost after = texts(parts@).subrange(0, i + 1);
        assert(after.drop_last() =~= before);
        assert(after.last() == parts[i as int]@);
        if i > 0 {
            out.append(sep);
        }
        out.append(parts[i].as_str());
        assert(out@ =~= old(out)@ + join(after, sep@));
        i += 1;
    }
    assert(texts(parts@).subrange(0, parts.len() as int) =~= texts(parts@));
}

/// The character sequences of the strings `parts`.
pub open spec fn texts(parts: Seq<String>) -> Seq<Seq<char>> {
    Seq::new(parts.len(), |k: int| parts[k]@)
}

/// The characters `from..to` of `s` as a string.
pub fn substring(s: &str, from: usize, to: usize) -> (r: String)
    requires
        from <= to <= s@.len(),
    ensures
        r@ == s@.subrange(from as int, to as int),
{
    String::from_str(s.substring_char(from, to))
}

} // verus!
