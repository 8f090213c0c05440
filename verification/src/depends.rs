//! Dependency lists as the descriptor writes them: one array for the packages
//! that are needed, one for those that are optional.

use vstd::prelude::*;
use crate::text::{find, first_index, lemma_first_index, starts_with};

verus! {

/// An item between double quotes.
pub open spec fn quoted(item: Seq<char>) -> Seq<char> {
    "\""@ + item + "\""@
}

/// The items in order, each between double quotes and followed by one space.
pub open spec fn spaced(items: Seq<Seq<char>>) -> Seq<char>
    decreases items.len(),
{
    if items.len() == 0 {
        Seq::empty()
    } else {
        spaced(items.drop_last()) + quoted(items.last()) + " "@
    }
}

/// An array assignment: `key=("first" "second" "last")`. One space stands
/// between two items and none after the last.
pub open spec fn array_line(key: Seq<char>, items: Seq<Seq<char>>) -> Seq<char>
    recommends
        items.len() > 0,
{
    key + "=("@ + spaced(items.drop_last()) + quoted(items.last()) + ")"@
}

/// The dependency lines of a descriptor. An empty list has no line; where
/// both lists have one, a single line feed stands between the two.
pub open spec fn dependency_text(depends: Seq<Seq<char>>, optdepends: Seq<Seq<char>>) -> Seq<
    char,
> {
    if depends.len() == 0 && optdepends.len() == 0 {
        Seq::empty()
    } else if optdepends.len() == 0 {
        array_line("depends"@, depends)
    } else if depends.len() == 0 {
        array_line("optdepends"@, optdepends)
    } else {
        array_line("depends"@, depends) + "\n"@ + array_line("optdepends"@, optdepends)
    }
}

/// Appends `item` between double quotes.
fn push_quoted(out: &mut String, item: &str)
    ensures
        final(out)@ == old(out)@ + quoted(item@),
{
    out.append("\"");
    out.append(item);
    out.append("\"");
    assert(out@ =~= old(out)@ + quoted(item@));
}

/// Appends the array assignment of `items` to `key`.
fn push_array(out: &mut String, key: &str, items: &Vec<String>)
    requires
        items.len() > 0,
    ensures
        final(out)@ == old(out)@ + array_line(key@, items.deep_view()),
{
    let ghost all = items.deep_view();
    let last: usize = items.len() - 1;
    out.append(key);
    out.append("=(");
    let ghost head = out@;
    assert(spaced(all.take(0)) =~= Seq::empty());
    let mut i: usize = 0;
    while i < last
        invariant
            i <= last,
            last + 1 == items.len(),
            all == items.deep_view(),
            out@ == head + spaced(all.take(i as int)),
        decreases last - i,
    {
        push_quoted(out, items[i].as_str());
        out.append(" ");
        proof {
            let done = all.take(i + 1);
            assert(done.drop_last() =~= all.take(i as int));
            assert(done.last() == items[i as int]@);
            assert(out@ =~= head + spaced(done));
        }
        i += 1;
    }
    push_quoted(out, items[last].as_str());
    out.append(")");
    proof {
        assert(all.take(last as int) =~= all.drop_last());
        assert(all.last() == items[last as int]@);
        assert(out@ =~= old(out)@ + array_line(key@, all));
    }
}

/// The dependency lines of a descriptor for the two lists, without a line
/// feed at the end. The same lists always give the same text.
pub fn format_dependencies(depends: &Vec<String>, optdepends: &Vec<String>) -> (text: String)
    ensures
        text@ == dependency_text(depends.deep_view(), optdepends.deep_view()),
{
    let mut text = String::new();
    if depends.len() > 0 {
        push_array(&mut text, "depends", depends);
        if optdepends.len() > 0 {
            text.append("\n");
        }
    }
    if optdepends.len() > 0 {
        push_array(&mut text, "optdepends", optdepends);
    }
    assert(text@ =~= dependency_text(depends.deep_view(), optdepends.deep_view()));
    text
}

/// What the first line of `text` holds between double quotes, item by item,
/// and the text that follows the line, if the line ends at all. A line ends at
/// a line feed that stands outside quotes; a quote that is never closed holds
/// nothing.
pub open spec fn scan_line(text: Seq<char>) -> (Seq<Seq<char>>, Option<Seq<char>>)
    decreases text.len(),
{
    if text.len() == 0 {
        (Seq::empty(), None)
    } else if text[0] == '\n' {
        (Seq::empty(), Some(text.drop_first()))
    } else if text[0] == '"' {
        let body = text.drop_first();
        let close = first_index(body, '"') as int;
        if close >= body.len() {
            (Seq::empty(), None)
        } else {
            let later = scan_line(body.skip(close + 1));
            (seq![body.take(close)] + later.0, later.1)
        }
    } else {
        scan_line(text.drop_first())
    }
}

/// The two lists that dependency lines hold, the needed packages first. A
/// text that begins with the optional ones holds no others.
pub open spec fn parsed_dependencies(text: Seq<char>) -> (Seq<Seq<char>>, Seq<Seq<char>>) {
    let first = scan_line(text);
    if "optdepends"@.is_prefix_of(text) {
        (Seq::empty(), first.0)
    } else {
        match first.1 {
            Some(rest) => (first.0, scan_line(rest).0),
            None => (first.0, Seq::empty()),
        }
    }
}

/// Reads the line of `text` that begins at `from`: the items between its
/// double quotes, and the place after the line where the text goes on.
fn read_line(text: &str, from: usize) -> (line: (Vec<String>, Option<usize>))
    requires
        from <= text@.len(),
    ensures
        line.0.deep_view() == scan_line(text@.skip(from as int)).0,
        match line.1 {
            Some(next) => next <= text@.len() && scan_line(text@.skip(from as int)).1 == Some(
                text@.skip(next as int),
            ),
            None => scan_line(text@.skip(from as int)).1 is None,
        },
{
    let len: usize = text.unicode_len();
    let ghost whole = scan_line(text@.skip(from as int));
    let mut items: Vec<String> = Vec::new();
    let mut at: usize = from;
    assert(items.deep_view() + whole.0 =~= whole.0);
    loop
        invariant
            from <= at <= len,
            len == text@.len(),
            whole == scan_line(text@.skip(from as int)),
            whole.0 == items.deep_view() + scan_line(text@.skip(at as int)).0,
            whole.1 == scan_line(text@.skip(at as int)).1,
        decreases len - at,
    {
        let ghost here = text@.skip(at as int);
        let ghost so_far = items.deep_view();
        if at >= len {
            assert(so_far + Seq::<Seq<char>>::empty() =~= so_far);
            return (items, None);
        }
        let c = text.get_char(at);
        assert(here[0] == c);
        assert(here.drop_first() =~= text@.skip(at + 1));
        if c == '\n' {
            assert(so_far + Seq::<Seq<char>>::empty() =~= so_far);
            return (items, Some(at + 1));
        }
        if c == '"' {
            let close: usize = find(text, at + 1, '"');
            if close >= len {
                assert(so_far + Seq::<Seq<char>>::empty() =~= so_far);
                return (items, None);
            }
            let item = String::from_str(text.substring_char(at + 1, close));
            proof {
                let body = text@.skip(at + 1);
                assert(body.take(close - at - 1) =~= item@);
                assert(body.skip(close - at - 1 + 1) =~= text@.skip(close + 1));
            }
            items.push(item);
            assert(items.deep_view() =~= so_far + seq![item@]);
            assert(whole.0 =~= items.deep_view() + scan_line(text@.skip(close + 1)).0);
            at = close + 1;
        } else {
            at += 1;
        }
    }
}

/// Reads dependency lines back into the two lists that they were written
/// from: the items between double quotes, in the order of the text.
pub fn parse_dependencies(text: &str) -> (lists: (Vec<String>, Vec<String>))
    ensures
        (lists.0.deep_view(), lists.1.deep_view()) == parsed_dependencies(text@),
{
    assert(text@.skip(0) =~= text@);
    let first = read_line(text, 0);
    if starts_with(text, "optdepends") {
        let none: Vec<String> = Vec::new();
        assert(none.deep_view() =~= Seq::empty());
        (none, first.0)
    } else {
        match first.1 {
            Some(next) => {
                let second = read_line(text, next);
                (first.0, second.0)
            },
            None => {
                let none: Vec<String> = Vec::new();
                assert(none.deep_view() =~= Seq::empty());
                (first.0, none)
            },
        }
    }
}

/// Whether a text holds neither a double quote nor a line feed.
pub open spec fn is_plain(text: Seq<char>) -> bool {
    forall|i: int| 0 <= i < text.len() ==> text[i] != '"' && text[i] != '\n'
}

/// Whether no item holds a double quote.
pub open spec fn quote_free(items: Seq<Seq<char>>) -> bool {
    forall|i: int| 0 <= i < items.len() ==> !(#[trigger] items[i]).contains('"')
}

/// Plain text in front of a line changes nothing of what the line holds.
proof fn lemma_scan_plain(plain: Seq<char>, rest: Seq<char>)
    requires
        is_plain(plain),
    ensures
        scan_line(plain + rest) == scan_line(rest),
    decreases plain.len(),
{
    if plain.len() == 0 {
        assert(plain + rest =~= rest);
    } else {
        assert((plain + rest)[0] == plain[0]);
        assert((plain + rest).drop_first() =~= plain.drop_first() + rest);
        lemma_scan_plain(plain.drop_first(), rest);
    }
}

/// A quoted item in front of a line is the first item that the line holds.
proof fn lemma_scan_quoted(item: Seq<char>, rest: Seq<char>)
    requires
        !item.contains('"'),
    ensures
        scan_line(quoted(item) + rest).0 == seq![item] + scan_line(rest).0,
        scan_line(quoted(item) + rest).1 == scan_line(rest).1,
{
    reveal_strlit("\"");
    let text = quoted(item) + rest;
    let body = text.drop_first();
    assert(text[0] == '"');
    assert(body =~= item + seq!['"'] + rest);
    assert forall|k: int| 0 <= k < item.len() implies body[k] != '"' by {
        assert(body[k] == item[k]);
    }
    assert(body[item.len() as int] == '"');
    lemma_first_index(body, '"', item.len() as int);
    assert(body.take(item.len() as int) =~= item);
    assert(body.skip(item.len() as int + 1) =~= rest);
}

/// Quoted items in front of a line, a space after each, are the first items
/// that the line holds.
proof fn lemma_scan_spaced(items: Seq<Seq<char>>, rest: Seq<char>)
    requires
        quote_free(items),
    ensures
        scan_line(spaced(items) + rest).0 == items + scan_line(rest).0,
        scan_line(spaced(items) + rest).1 == scan_line(rest).1,
    decreases items.len(),
{
    if items.len() == 0 {
        assert(spaced(items) + rest =~= rest);
        assert(items + scan_line(rest).0 =~= scan_line(rest).0);
    } else {
        reveal_strlit(" ");
        let head = items.drop_last();
        let tail = quoted(items.last()) + (" "@ + rest);
        assert(spaced(items) + rest =~= spaced(head) + tail);
        assert(quote_free(head)) by {
            assert forall|i: int| 0 <= i < head.len() implies !(#[trigger] head[i]).contains(
                '"',
            ) by {
                assert(head[i] == items[i]);
            }
        }
        lemma_scan_spaced(head, tail);
        lemma_scan_quoted(items.last(), " "@ + rest);
        lemma_scan_plain(" "@, rest);
        assert(head + (seq![items.last()] + scan_line(rest).0) =~= items + scan_line(rest).0);
    }
}

/// An array assignment in front of a line adds its items, in their order, in
/// front of what the line holds.
proof fn lemma_scan_array(key: Seq<char>, items: Seq<Seq<char>>, rest: Seq<char>)
    requires
        is_plain(key),
        items.len() > 0,
        quote_free(items),
    ensures
        scan_line(array_line(key, items) + rest).0 == items + scan_line(rest).0,
        scan_line(array_line(key, items) + rest).1 == scan_line(rest).1,
{
    reveal_strlit("=(");
    reveal_strlit(")");
    let head = items.drop_last();
    let closing = ")"@ + rest;
    let last = quoted(items.last()) + closing;
    let list = spaced(head) + last;
    assert(array_line(key, items) + rest =~= key + ("=("@ + list));
    lemma_scan_plain(key, "=("@ + list);
    lemma_scan_plain("=("@, list);
    assert(quote_free(head)) by {
        assert forall|i: int| 0 <= i < head.len() implies !(#[trigger] head[i]).contains('"') by {
            assert(head[i] == items[i]);
        }
    }
    lemma_scan_spaced(head, last);
    lemma_scan_quoted(items.last(), closing);
    lemma_scan_plain(")"@, rest);
    assert(head + (seq![items.last()] + scan_line(rest).0) =~= items + scan_line(rest).0);
}

/// Dependency lines read back give the lists that they were written from,
/// item for item and in the same order: the text keeps all that the lists
/// hold. This needs items without a double quote, since the text marks with
/// one where an item ends; it holds of empty lists too.
pub proof fn lemma_format_then_parse(depends: Seq<Seq<char>>, optdepends: Seq<Seq<char>>)
    requires
        quote_free(depends),
        quote_free(optdepends),
    ensures
        parsed_dependencies(dependency_text(depends, optdepends)) == (depends, optdepends),
{
    reveal_strlit("depends");
    reveal_strlit("optdepends");
    reveal_strlit("\n");
    let text = dependency_text(depends, optdepends);
    let none = Seq::<char>::empty();
    let needed = array_line("depends"@, depends);
    let optional = array_line("optdepends"@, optdepends);
    assert(is_plain("depends"@));
    assert(is_plain("optdepends"@));
    if depends.len() == 0 && optdepends.len() == 0 {
        assert(!"optdepends"@.is_prefix_of(text));
    } else if optdepends.len() == 0 {
        assert(text[0] == 'd');
        assert(!"optdepends"@.is_prefix_of(text)) by {
            if "optdepends"@.is_prefix_of(text) {
                assert(text.subrange(0, 10)[0] == 'o');
            }
        }
        lemma_scan_array("depends"@, depends, none);
        assert(needed + none =~= needed);
        assert(depends + Seq::<Seq<char>>::empty() =~= depends);
    } else if depends.len() == 0 {
        assert(text.subrange(0, 10) =~= "optdepends"@);
        lemma_scan_array("optdepends"@, optdepends, none);
        assert(optional + none =~= optional);
        assert(optdepends + Seq::<Seq<char>>::empty() =~= optdepends);
    } else {
        assert(text[0] == 'd');
        assert(!"optdepends"@.is_prefix_of(text)) by {
            if "optdepends"@.is_prefix_of(text) {
                assert(text.subrange(0, 10)[0] == 'o');
            }
        }
        let second = "\n"@ + optional;
        assert(text =~= needed + second);
        lemma_scan_array("depends"@, depends, second);
        assert(second[0] == '\n');
        assert(second.drop_first() =~= optional);
        assert(scan_line(second) == (Seq::<Seq<char>>::empty(), Some(optional)));
        assert(depends + Seq::<Seq<char>>::empty() =~= depends);
        lemma_scan_array("optdepends"@, optdepends, none);
        assert(optional + none =~= optional);
        assert(optdepends + Seq::<Seq<char>>::empty() =~= optdepends);
    }
}

} // verus!
