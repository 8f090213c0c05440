//! Text as sequences of characters: the few operations on `str` that the
//! packaging rules are stated with.

use vstd::prelude::*;

verus! {

/// Whether `s` begins with `prefix`, character for character.
pub fn starts_with(s: &str, prefix: &str) -> (found: bool)
    ensures
        found == prefix@.is_prefix_of(s@),
{
    let n: usize = prefix.unicode_len();
    if s.unicode_len() < n {
        return false;
    }
    let mut i: usize = 0;
    while i < n
        invariant
            i <= n,
            n == prefix@.len(),
            n <= s@.len(),
            forall|k: int| 0 <= k < i ==> s@[k] == prefix@[k],
        decreases n - i,
    {
        if s.get_char(i) != prefix.get_char(i) {
            return false;
        }
        i += 1;
    }
    assert(prefix@ =~= s@.subrange(0, n as int));
    true
}

/// Whether two strings hold the same characters.
pub fn same_text(a: &str, b: &str) -> (same: bool)
    ensures
        same == (a@ == b@),
{
    let same = a.unicode_len() == b.unicode_len() && starts_with(a, b);
    assert(same ==> a@ =~= b@.subrange(0, b@.len() as int) && a@ =~= b@);
    same
}

/// The place of the first `c` in `s`, and the length of `s` where it holds
/// none.
pub open spec fn first_index(s: Seq<char>, c: char) -> nat
    decreases s.len(),
{
    if s.len() == 0 || s[0] == c {
        0
    } else {
        1 + first_index(s.drop_first(), c)
    }
}

/// `first_index` is the one place before which no `c` stands and at which
/// one does, or the text ends.
pub proof fn lemma_first_index(s: Seq<char>, c: char, at: int)
    requires
        0 <= at <= s.len(),
        forall|k: int| 0 <= k < at ==> s[k] != c,
        at < s.len() ==> s[at] == c,
    ensures
        first_index(s, c) == at,
    decreases at,
{
    if at > 0 {
        lemma_first_index(s.drop_first(), c, at - 1);
    }
}

/// The place of the first `c` in `text` at or after `from`, and the length of
/// `text` where none follows.
pub fn find(text: &str, from: usize, c: char) -> (at: usize)
    requires
        from <= text@.len(),
    ensures
        at == from + first_index(text@.skip(from as int), c),
        from <= at <= text@.len(),
{
    let len: usize = text.unicode_len();
    let mut at: usize = from;
    while at < len && text.get_char(at) != c
        invariant
            from <= at <= len,
            len == text@.len(),
            forall|k: int| from <= k < at ==> text@[k] != c,
        decreases len - at,
    {
        at += 1;
    }
    proof {
        lemma_first_index(text@.skip(from as int), c, at - from);
    }
    at
}

/// A line without the carriage return that may stand at its end.
pub open spec fn without_return(line: Seq<char>) -> Seq<char> {
    if line.len() > 0 && line.last() == '\r' {
        line.drop_last()
    } else {
        line
    }
}

/// The lines of a text. A line ends at a line feed, or at a carriage return
/// with a line feed behind it, and holds neither. What follows the last line
/// feed is a line as it stands, unless it is empty.
pub open spec fn lines(text: Seq<char>) -> Seq<Seq<char>>
    decreases text.len(),
{
    if text.len() == 0 {
        Seq::empty()
    } else {
        let end = first_index(text, '\n');
        if end >= text.len() {
            seq![text]
        } else {
            seq![without_return(text.take(end as int))] + lines(text.skip(end as int + 1))
        }
    }
}

/// A sequence with one more item in front holds what the item is or the
/// sequence holds.
proof fn lemma_contains_after_first<A>(first: A, rest: Seq<A>, x: A)
    ensures
        (seq![first] + rest).contains(x) <==> first == x || rest.contains(x),
{
    let all = seq![first] + rest;
    if first == x {
        assert(all[0] == x);
    }
    if rest.contains(x) {
        let i = choose|i: int| 0 <= i < rest.len() && rest[i] == x;
        assert(all[i + 1] == x);
    }
    if all.contains(x) {
        let i = choose|i: int| 0 <= i < all.len() && all[i] == x;
        if i > 0 {
            assert(rest[i - 1] == x);
        }
    }
}

/// Whether one of the lines of `text` is `wanted`.
pub fn has_line(text: &str, wanted: &str) -> (found: bool)
    ensures
        found == lines(text@).contains(wanted@),
{
    let len: usize = text.unicode_len();
    let mut start: usize = 0;
    assert(text@.skip(0) =~= text@);
    while start < len
        invariant
            start <= len,
            len == text@.len(),
            lines(text@).contains(wanted@) == lines(text@.skip(start as int)).contains(wanted@),
        decreases len - start,
    {
        let ghost rest = text@.skip(start as int);
        let end: usize = find(text, start, '\n');
        if end >= len {
            let last = text.substring_char(start, len);
            assert(last@ =~= rest);
            proof {
                lemma_contains_after_first(rest, Seq::empty(), wanted@);
                assert(seq![rest] + Seq::<Seq<char>>::empty() =~= seq![rest]);
            }
            return same_text(last, wanted);
        }
        let mut stop: usize = end;
        if stop > start && text.get_char(stop - 1) == '\r' {
            stop -= 1;
        }
        let line = text.substring_char(start, stop);
        proof {
            let whole = rest.take(end - start);
            assert(whole =~= text@.subrange(start as int, end as int));
            assert(line@ =~= without_return(whole));
            assert(rest.skip(end - start + 1) =~= text@.skip(end + 1));
            lemma_contains_after_first(line@, lines(text@.skip(end + 1)), wanted@);
        }
        if same_text(line, wanted) {
            return true;
        }
        start = end + 1;
    }
    false
}

} // verus!
