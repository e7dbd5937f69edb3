//! Splitting and normalizing short texts.

use vstd::prelude::*;
use vstd::string::StringExecFns;

verus! {

/// Whether `c` has the Unicode property `White_Space`.
pub open spec fn is_white_space(c: char) -> bool {
    ||| '\u{9}' <= c <= '\u{d}'
    ||| c == ' '
    ||| c == '\u{85}'
    ||| c == '\u{a0}'
    ||| c == '\u{1680}'
    ||| '\u{2000}' <= c <= '\u{200a}'
    ||| c == '\u{2028}'
    ||| c == '\u{2029}'
    ||| c == '\u{202f}'
    ||| c == '\u{205f}'
    ||| c == '\u{3000}'
}

/// `s` without leading white space.
pub open spec fn trimmed_start(s: Seq<char>) -> Seq<char>
    decreases s.len(),
{
    if s.len() > 0 && is_white_space(s.first()) {
        trimmed_start(s.drop_first())
    } else {
        s
    }
}

/// `s` without trailing white space.
pub open spec fn trimmed_end(s: Seq<char>) -> Seq<char>
    decreases s.len(),
{
    if s.len() > 0 && is_white_space(s.last()) {
        trimmed_end(s.drop_last())
    } else {
        s
    }
}

/// `s` without leading and trailing white space.
pub open spec fn trimmed(s: Seq<char>) -> Seq<char> {
    trimmed_end(trimmed_start(s))
}

/// The pieces of `s` between the separators `sep`. There is always one more than separators.
pub open spec fn pieces(s: Seq<char>, sep: char) -> Seq<Seq<char>>
    decreases s.len(),
{
    if s.len() == 0 {
        seq![Seq::empty()]
    } else {
        let before = pieces(s.drop_last(), sep);
        if s.last() == sep {
            before.push(Seq::empty())
        } else {
            before.drop_last().push(before.last().push(s.last()))
        }
    }
}

/// The trimmed items that are not empty.
pub open spec fn non_blank(items: Seq<Seq<char>>) -> Seq<Seq<char>>
    decreases items.len(),
{
    if items.len() == 0 {
        Seq::empty()
    } else {
        let before = non_blank(items.drop_last());
        let item = trimmed(items.last());
        if item.len() == 0 {
            before
        } else {
            before.push(item)
        }
    }
}

/// The trimmed pieces of `s` between the separators `sep` that are not empty.
pub open spec fn entries(s: Seq<char>, sep: char) -> Seq<Seq<char>> {
    non_blank(pieces(s, sep))
}

/// `c` with an ASCII capital letter made small.
pub open spec fn lower(c: char) -> char {
    if 'A' <= c <= 'Z' {
        (c as u32 + 32) as char
    } else {
        c
    }
}

/// `s` with ASCII capital letters made small.
pub open spec fn lowered(s: Seq<char>) -> Seq<char> {
    Seq::new(s.len(), |i: int| lower(s[i]))
}

/// The texts of `items`.
pub open spec fn texts(items: Seq<String>) -> Seq<Seq<char>> {
    Seq::new(items.len(), |i: int| items[i]@)
}

/// The texts of `items`.
pub open spec fn char_texts(items: Seq<Vec<char>>) -> Seq<Seq<char>> {
    Seq::new(items.len(), |i: int| items[i]@)
}

/// Tests whether `c` has the Unicode property `White_Space`.
fn white_space(c: char) -> (is: bool)
    ensures
        is == is_white_space(c),
{
    ('\u{9}' <= c && c <= '\u{d}') || c == ' ' || c == '\u{85}' || c == '\u{a0}' || c
        == '\u{1680}' || ('\u{2000}' <= c && c <= '\u{200a}') || c == '\u{2028}' || c == '\u{2029}'
        || c == '\u{202f}' || c == '\u{205f}' || c == '\u{3000}'
}

/// The characters of `s`.
pub fn chars(s: &str) -> (v: Vec<char>)
    ensures
        v@ == s@,
{
    let mut v: Vec<char> = Vec::new();
    for c in iter: s.chars()
        invariant
            v@ == iter.seq().take(iter.index() as int),
            iter.seq() == s@,
    {
        v.push(c);
    }
    v
}

/// The text of the characters `v[from..to]`.
pub fn text_of(v: &Vec<char>, from: usize, to: usize) -> (s: String)
    requires
        from <= to <= v@.len(),
    ensures
        s@ == v@.subrange(from as int, to as int),
{
    let mut s = String::new();
    let mut i: usize = from;
    while i < to
        invariant
            from <= i <= to <= v@.len(),
            s@ == v@.subrange(from as int, i as int),
        decreases to - i,
    {
        s.push(v[i]);
        assert(v@.subrange(from as int, i + 1) == v@.subrange(from as int, i as int).push(
            v@[i as int],
        ));
        i = i + 1;
    }
    s
}

/// The text of the characters `v` without leading and trailing white space.
fn trim_chars(v: &Vec<char>) -> (s: String)
    ensures
        s@ == trimmed(v@),
{
    let mut from: usize = 0;
    let ghost n = v@.len() as int;
    assert(v@.subrange(0, n) == v@);
    while from < v.len() && white_space(v[from])
        invariant
            from <= v@.len(),
            n == v@.len(),
            trimmed_start(v@) == trimmed_start(v@.subrange(from as int, n)),
        decreases v@.len() - from,
    {
        assert(v@.subrange(from as int, n).drop_first() == v@.subrange(from + 1, n));
        from = from + 1;
    }
    let mut to: usize = v.len();
    let ghost start = v@.subrange(from as int, n);
    assert(trimmed_start(start) == start);
    while to > from && white_space(v[to - 1])
        invariant
            from <= to <= v@.len(),
            n == v@.len(),
            start == v@.subrange(from as int, n),
            trimmed_end(start) == trimmed_end(v@.subrange(from as int, to as int)),
        decreases to,
    {
        assert(v@.subrange(from as int, to as int).drop_last() == v@.subrange(
            from as int,
            to - 1,
        ));
        to = to - 1;
    }
    text_of(v, from, to)
}

/// `s` without leading and trailing white space.
pub fn trim(s: &str) -> (t: String)
    ensures
        t@ == trimmed(s@),
{
    trim_chars(&chars(s))
}

/// Splits `s` at each `sep`.
fn split(s: &str, sep: char) -> (items: Vec<Vec<char>>)
    ensures
        char_texts(items@) == pieces(s@, sep),
{
    let v = chars(s);
    let mut done: Vec<Vec<char>> = Vec::new();
    let mut current: Vec<char> = Vec::new();
    let mut i: usize = 0;
    assert(char_texts(done@).push(current@) == pieces(v@.take(0), sep));
    while i < v.len()
        invariant
            v@ == s@,
            i <= v@.len(),
            char_texts(done@).push(current@) == pieces(v@.take(i as int), sep),
        decreases v@.len() - i,
    {
        let c = v[i];
        let ghost before = char_texts(done@).push(current@);
        proof {
            assert(v@.take(i + 1).drop_last() == v@.take(i as int));
            assert(v@.take(i + 1).last() == c);
            assert(before.last() == current@);
            assert(before.drop_last() == char_texts(done@));
        }
        if c == sep {
            let ghost old_done = done@;
            done.push(current);
            assert(char_texts(done@) == char_texts(old_done).push(current@));
            current = Vec::new();
        } else {
            current.push(c);
        }
        i = i + 1;
    }
    assert(v@.take(i as int) == v@);
    let ghost old_done = done@;
    done.push(current);
    assert(char_texts(done@) == char_texts(old_done).push(current@));
    done
}

/// The trimmed pieces of `s` between the separators `sep` that are not empty.
pub fn entry_list(s: &str, sep: char) -> (list: Vec<String>)
    ensures
        texts(list@) == entries(s@, sep),
{
    let items = split(s, sep);
    let mut list: Vec<String> = Vec::new();
    let mut i: usize = 0;
    assert(texts(list@) == non_blank(char_texts(items@).take(0)));
    while i < items.len()
        invariant
            char_texts(items@) == pieces(s@, sep),
            i <= items@.len(),
            texts(list@) == non_blank(char_texts(items@).take(i as int)),
        decreases items@.len() - i,
    {
        let item = trim_chars(&items[i]);
        proof {
            let all = char_texts(items@);
            assert(all.take(i + 1).drop_last() == all.take(i as int));
            assert(all.take(i + 1).last() == items@[i as int]@);
        }
        if !item.as_str().is_empty() {
            let ghost before = list@;
            list.push(item);
            assert(texts(list@) == texts(before).push(item@));
        }
        i = i + 1;
    }
    assert(char_texts(items@).take(i as int) == char_texts(items@));
    list
}

/// `c` with an ASCII capital letter made small.
pub fn to_lower(c: char) -> (l: char)
    ensures
        l == lower(c),
{
    if 'A' <= c && c <= 'Z' {
        (c as u8 + 32) as char
    } else {
        c
    }
}

/// `s` with ASCII capital letters made small.
pub fn to_lower_text(s: &str) -> (t: String)
    ensures
        t@ == lowered(s@),
{
    let v = chars(s);
    let mut t = String::new();
    let mut i: usize = 0;
    while i < v.len()
        invariant
            v@ == s@,
            i <= v@.len(),
            t@ == lowered(s@.take(i as int)),
        decreases v@.len() - i,
    {
        t.push(to_lower(v[i]));
        assert(lowered(s@.take(i + 1)) == lowered(s@.take(i as int)).push(lower(s@[i as int])));
        i = i + 1;
    }
    assert(s@.take(i as int) == s@);
    t
}

/// Tests whether `s` is the text `expected`.
pub fn is_text(s: &String, expected: &str) -> (is: bool)
    ensures
        is == (s@ == expected@),
{
    *s == String::from_str(expected)
}

/// The characters that count as white space, by their code points.
pub proof fn white_space_characters(c: char)
    ensures
        is_white_space(c) <==> {
            let n = c as u32;
            ||| 9 <= n <= 13
            ||| n == 32 || n == 133 || n == 160 || n == 5760
            ||| 8192 <= n <= 8202
            ||| n == 8232 || n == 8233 || n == 8239 || n == 8287 || n == 12288
        },
{
}

/// Trimming cuts white space, and nothing else, off both ends of a text, and leaves no white space
/// there. So it changes a trimmed text no more.
pub proof fn trimming_cuts_white_space(s: Seq<char>)
    ensures
        exists|i: int, j: int| #[trigger] cuts(s, i, j, trimmed(s)),
        trimmed(s).len() > 0 ==> !is_white_space(trimmed(s)[0]) && !is_white_space(
            trimmed(s)[trimmed(s).len() - 1],
        ),
        trimmed(trimmed(s)) == trimmed(s),
{
    let start = trimmed_start(s);
    lemma_trimmed_start(s);
    lemma_trimmed_end(start);
    let i = s.len() - start.len();
    let j = i + trimmed(s).len();
    assert(start == s.subrange(i, s.len() as int));
    assert(trimmed(s) == s.subrange(i, j));
    assert forall|k: int| 0 <= k < i || j <= k < s.len() implies is_white_space(#[trigger] s[k]) by {
        if k >= j {
            assert(s[k] == start[k - i]);
        }
    }
    assert(cuts(s, i, j, trimmed(s)));
    if trimmed(s).len() > 0 {
        assert(trimmed(s)[0] == start[0]);
    }
    assert(trimmed_start(trimmed(s)) == trimmed(s));
}

/// Whether `t` is what is left of `s` when the white space before `i` and from `j` on is cut off.
pub open spec fn cuts(s: Seq<char>, i: int, j: int, t: Seq<char>) -> bool {
    &&& 0 <= i <= j <= s.len()
    &&& t == s.subrange(i, j)
    &&& forall|k: int| 0 <= k < i || j <= k < s.len() ==> is_white_space(#[trigger] s[k])
}

/// Trimming the start cuts leading white space off.
proof fn lemma_trimmed_start(s: Seq<char>)
    ensures
        trimmed_start(s).len() <= s.len(),
        trimmed_start(s) == s.subrange(s.len() - trimmed_start(s).len(), s.len() as int),
        trimmed_start(s).len() > 0 ==> !is_white_space(trimmed_start(s)[0]),
        forall|k: int|
            0 <= k < s.len() - trimmed_start(s).len() ==> is_white_space(#[trigger] s[k]),
    decreases s.len(),
{
    if s.len() > 0 && is_white_space(s.first()) {
        let rest = s.drop_first();
        lemma_trimmed_start(rest);
        assert(trimmed_start(s) == s.subrange(
            s.len() - trimmed_start(s).len(),
            s.len() as int,
        ));
        assert forall|k: int| 0 <= k < s.len() - trimmed_start(s).len() implies is_white_space(
            #[trigger] s[k],
        ) by {
            if k > 0 {
                assert(s[k] == rest[k - 1]);
            }
        }
    } else {
        assert(s == s.subrange(0, s.len() as int));
    }
}

/// Trimming the end cuts trailing white space off.
proof fn lemma_trimmed_end(s: Seq<char>)
    ensures
        trimmed_end(s).len() <= s.len(),
        trimmed_end(s) == s.subrange(0, trimmed_end(s).len() as int),
        trimmed_end(s).len() > 0 ==> !is_white_space(trimmed_end(s).last()),
        forall|k: int| trimmed_end(s).len() <= k < s.len() ==> is_white_space(#[trigger] s[k]),
        trimmed_end(trimmed_end(s)) == trimmed_end(s),
    decreases s.len(),
{
    if s.len() > 0 && is_white_space(s.last()) {
        let rest = s.drop_last();
        lemma_trimmed_end(rest);
        assert(trimmed_end(s) == s.subrange(0, trimmed_end(s).len() as int));
        assert forall|k: int| trimmed_end(s).len() <= k < s.len() implies is_white_space(
            #[trigger] s[k],
        ) by {
            if k < rest.len() {
                assert(s[k] == rest[k]);
            }
        }
    } else {
        assert(s == s.subrange(0, s.len() as int));
    }
}

/// The items with a separator between each two.
pub open spec fn joined(items: Seq<Seq<char>>, sep: char) -> Seq<char>
    decreases items.len(),
{
    if items.len() == 0 {
        Seq::empty()
    } else if items.len() == 1 {
        items[0]
    } else {
        joined(items.drop_last(), sep).push(sep) + items.last()
    }
}

/// The pieces of a text hold no separator, and with separators between them they are the text again.
pub proof fn pieces_join_again(s: Seq<char>, sep: char)
    ensures
        pieces(s, sep).len() > 0,
        joined(pieces(s, sep), sep) == s,
        forall|i: int, k: int|
            0 <= i < pieces(s, sep).len() && 0 <= k < pieces(s, sep)[i].len()
                ==> #[trigger] pieces(s, sep)[i][k] != sep,
    decreases s.len(),
{
    if s.len() > 0 {
        let rest = s.drop_last();
        pieces_join_again(rest, sep);
        let before = pieces(rest, sep);
        let after = pieces(s, sep);
        let tail = after.last();
        assert(s == rest.push(s.last()));
        if s.last() == sep {
            assert(after.drop_last() == before);
            assert(tail == Seq::<char>::empty());
            assert(joined(after, sep) == joined(before, sep).push(sep));
            assert forall|i: int, k: int|
                0 <= i < after.len() && 0 <= k < after[i].len() implies #[trigger] after[i][k]
                != sep by {
                assert(i < before.len() ==> after[i] == before[i]);
            }
        } else {
            assert(after.drop_last() == before.drop_last());
            assert(tail == before.last().push(s.last()));
            if before.len() == 1 {
                assert(after[0] == before[0].push(s.last()));
            } else {
                assert(joined(after, sep) == joined(before.drop_last(), sep).push(sep) + tail);
                assert(joined(after, sep) == joined(before, sep).push(s.last()));
            }
            assert forall|i: int, k: int|
                0 <= i < after.len() && 0 <= k < after[i].len() implies #[trigger] after[i][k]
                != sep by {
                if i < before.len() - 1 {
                    assert(after[i] == before[i]);
                } else if k < before.last().len() {
                    assert(after[i][k] == before[i][k]);
                }
            }
        }
    } else {
        let none = pieces(s, sep);
        assert(none[0] == s);
    }
}

/// The entries of two lists of items are those of the first and then those of the second. An item
/// counts with its white space cut off, unless nothing is left of it.
pub proof fn entries_are_kept_in_order(
    left: Seq<Seq<char>>,
    right: Seq<Seq<char>>,
    item: Seq<char>,
)
    ensures
        non_blank(left + right) == non_blank(left) + non_blank(right),
        trimmed(item).len() > 0 ==> non_blank(seq![item]) == seq![trimmed(item)],
        trimmed(item).len() == 0 ==> non_blank(seq![item]) == Seq::<Seq<char>>::empty(),
        non_blank(Seq::empty()) == Seq::<Seq<char>>::empty(),
    decreases right.len(),
{
    reveal_with_fuel(non_blank, 2);
    assert(seq![item].drop_last() == Seq::<Seq<char>>::empty());
    assert(seq![item].last() == item);
    if right.len() > 0 {
        entries_are_kept_in_order(left, right.drop_last(), item);
        assert((left + right).drop_last() == left + right.drop_last());
        assert((left + right).last() == right.last());
        assert(non_blank(left + right) == non_blank(left) + non_blank(right));
    } else {
        assert(left + right == left);
        assert(non_blank(left) + non_blank(right) == non_blank(left));
    }
}

/// The entries of a text are those of its pieces; none is empty or has white space at its ends.
pub proof fn entries_are_trimmed(s: Seq<char>, sep: char)
    ensures
        entries(s, sep) == non_blank(pieces(s, sep)),
        forall|i: int|
            0 <= i < entries(s, sep).len() ==> (#[trigger] entries(s, sep)[i]).len() > 0 && trimmed(
                entries(s, sep)[i],
            ) == entries(s, sep)[i],
{
    lemma_entries_are_trimmed(pieces(s, sep));
}

/// None of the items that are kept is empty or has white space at its ends.
proof fn lemma_entries_are_trimmed(items: Seq<Seq<char>>)
    ensures
        forall|i: int|
            0 <= i < non_blank(items).len() ==> (#[trigger] non_blank(items)[i]).len() > 0
                && trimmed(non_blank(items)[i]) == non_blank(items)[i],
    decreases items.len(),
{
    if items.len() > 0 {
        lemma_entries_are_trimmed(items.drop_last());
        trimming_cuts_white_space(items.last());
        let before = non_blank(items.drop_last());
        let after = non_blank(items);
        assert forall|i: int| 0 <= i < after.len() implies (#[trigger] after[i]).len() > 0
            && trimmed(after[i]) == after[i] by {
            assert(i < before.len() ==> after[i] == before[i]);
        }
    }
}

/// Making a text small changes each of the 26 ASCII capital letters into the letter 32 code points
/// later, and no other character.
pub proof fn capitals_are_made_small(s: Seq<char>, i: int)
    requires
        0 <= i < s.len(),
    ensures
        lowered(s).len() == s.len(),
        65 <= s[i] as u32 <= 90 ==> lowered(s)[i] as u32 == s[i] as u32 + 32,
        !(65 <= s[i] as u32 <= 90) ==> lowered(s)[i] == s[i],
        lowered(lowered(s)) == lowered(s),
{
    assert(lowered(lowered(s)) == lowered(s));
}

/// The texts of a list are those of its items, in their order.
pub proof fn texts_are_those_of_the_items(items: Seq<String>, i: int)
    requires
        0 <= i < items.len(),
    ensures
        texts(items).len() == items.len(),
        texts(items)[i] == items[i]@,
{
}

} // verus!
