//! Text as sequences of characters.
use vstd::prelude::*;
use vstd::string::{StrSliceExecFns, StringExecFns};

verus! {

/// The characters of an optional text.
pub open spec fn optional_text(text: Option<String>) -> Option<Seq<char>> {
    match text {
        Some(text) => Some(text@),
        None => None,
    }
}

/// The characters of each text.
pub open spec fn texts(list: Seq<String>) -> Seq<Seq<char>> {
    list.map_values(|text: String| text@)
}

/// A copy of an optional text.
pub(crate) fn copy_optional(text: &Option<String>) -> (copy: Option<String>)
    ensures
        copy == *text,
{
    match text {
        Some(text) => Some(text.clone()),
        None => None,
    }
}

/// A copy of a list of texts.
pub(crate) fn copy_texts(list: &Vec<String>) -> (copy: Vec<String>)
    ensures
        copy@ == list@,
{
    let mut copy: Vec<String> = Vec::new();
    let mut i: usize = 0;
    while i < list.len()
        invariant
            i <= list@.len(),
            copy@ == list@.take(i as int),
        decreases list@.len() - i,
    {
        copy.push(list[i].clone());
        assert(copy@ =~= list@.take(i + 1));
        i += 1;
    }
    assert(list@.take(i as int) =~= list@);
    copy
}

/// The decimal digit `digit`.
pub open spec fn digit_text(digit: nat) -> Seq<char> {
    if digit == 0 {
        "0"@
    } else if digit == 1 {
        "1"@
    } else if digit == 2 {
        "2"@
    } else if digit == 3 {
        "3"@
    } else if digit == 4 {
        "4"@
    } else if digit == 5 {
        "5"@
    } else if digit == 6 {
        "6"@
    } else if digit == 7 {
        "7"@
    } else if digit == 8 {
        "8"@
    } else {
        "9"@
    }
}

/// `number` in decimal.
pub open spec fn decimal_text(number: nat) -> Seq<char>
    decreases number,
{
    if number < 10 {
        digit_text(number)
    } else {
        decimal_text(number / 10) + digit_text(number % 10)
    }
}

/// The decimal digit `digit`.
fn digit(value: usize) -> (text: &'static str)
    requires
        value < 10,
    ensures
        text@ == digit_text(value as nat),
{
    match value {
        0 => "0",
        1 => "1",
        2 => "2",
        3 => "3",
        4 => "4",
        5 => "5",
        6 => "6",
        7 => "7",
        8 => "8",
        _ => "9",
    }
}

/// `number` in decimal.
pub(crate) fn decimal(number: usize) -> (text: String)
    ensures
        text@ == decimal_text(number as nat),
    decreases number,
{
    if number < 10 {
        digit(number).to_owned()
    } else {
        let front = decimal(number / 10);
        front.concat(digit(number % 10))
    }
}

/// `true` or `false`.
pub open spec fn bool_text(value: bool) -> Seq<char> {
    if value {
        "true"@
    } else {
        "false"@
    }
}

/// `true` or `false`.
pub(crate) fn bool_name(value: bool) -> (text: &'static str)
    ensures
        text@ == bool_text(value),
{
    if value {
        "true"
    } else {
        "false"
    }
}

/// Whether a character is white space, as Unicode has it.
pub open spec fn is_space(c: char) -> bool {
    ||| '\u{9}' <= c <= '\u{d}'
    ||| c == ' '
    ||| c == '\u{85}'
    ||| c == '\u{a0}'
    ||| c == '\u{1680}'
    ||| '\u{2000}' <= c <= '\u{200a}'
    ||| c == '\u{2028}'
    ||| c == '\u{2029}'
    ||| c == '\u{202f}'
    ||| c == '\u{205f}'
    ||| c == '\u{3000}'
}

fn space(c: char) -> (space: bool)
    ensures
        space == is_space(c),
{
    ('\u{9}' <= c && c <= '\u{d}') || c == ' ' || c == '\u{85}' || c == '\u{a0}' || c == '\u{1680}' || ('\u{2000}' <= c
        && c <= '\u{200a}') || c == '\u{2028}' || c == '\u{2029}' || c == '\u{202f}' || c == '\u{205f}' || c == '\u{3000}'
}

/// `text` without white space at its start.
pub open spec fn trim_front(text: Seq<char>) -> Seq<char>
    decreases text.len(),
{
    if text.len() > 0 && is_space(text[0]) {
        trim_front(text.drop_first())
    } else {
        text
    }
}

/// `text` without white space at its end.
pub open spec fn trim_back(text: Seq<char>) -> Seq<char>
    decreases text.len(),
{
    if text.len() > 0 && is_space(text.last()) {
        trim_back(text.drop_last())
    } else {
        text
    }
}

/// `text` without white space at its start and end.
pub open spec fn trimmed(text: Seq<char>) -> Seq<char> {
    trim_back(trim_front(text))
}

/// The characters of `text`.
pub(crate) fn characters(text: &str) -> (list: Vec<char>)
    ensures
        list@ == text@,
{
    let mut list: Vec<char> = Vec::new();
    let count = text.unicode_len();
    let mut i: usize = 0;
    while i < count
        invariant
            i <= count,
            count == text@.len(),
            list@ == text@.take(i as int),
        decreases count - i,
    {
        list.push(text.get_char(i));
        assert(list@ =~= text@.take(i + 1));
        i += 1;
    }
    assert(text@.take(i as int) =~= text@);
    list
}

/// Where the part of `list` from `from` to `to` begins and ends without white
/// space around it.
pub(crate) fn trim(list: &Vec<char>, from: usize, to: usize) -> (range: (usize, usize))
    requires
        from <= to <= list@.len(),
    ensures
        from <= range.0 <= range.1 <= to,
        list@.subrange(range.0 as int, range.1 as int) == trimmed(list@.subrange(from as int, to as int)),
{
    let ghost whole = list@.subrange(from as int, to as int);
    let mut start = from;
    while start < to && space(list[start])
        invariant
            from <= start <= to <= list@.len(),
            trim_front(list@.subrange(start as int, to as int)) == trim_front(whole),
        decreases to - start,
    {
        let ghost part = list@.subrange(start as int, to as int);
        assert(part.drop_first() =~= list@.subrange(start + 1, to as int));
        start += 1;
    }
    let ghost front = list@.subrange(start as int, to as int);
    assert(trim_front(front) == front);
    let mut end = to;
    while end > start && space(list[end - 1])
        invariant
            start <= end <= to <= list@.len(),
            trim_back(list@.subrange(start as int, end as int)) == trim_back(front),
        decreases end - start,
    {
        let ghost part = list@.subrange(start as int, end as int);
        assert(part.drop_last() =~= list@.subrange(start as int, end - 1));
        end -= 1;
    }
    (start, end)
}

/// The position of the first `needle` in `text`, or its length where there is
/// none.
pub open spec fn first_of(text: Seq<char>, needle: char) -> int
    decreases text.len(),
{
    if text.len() == 0 || text[0] == needle {
        0
    } else {
        1 + first_of(text.drop_first(), needle)
    }
}

/// Where the first `needle` is in the part of `list` from `from` to `to`, or
/// `to` where there is none.
pub(crate) fn find(list: &Vec<char>, from: usize, to: usize, needle: char) -> (at: usize)
    requires
        from <= to <= list@.len(),
    ensures
        from <= at <= to,
        at - from == first_of(list@.subrange(from as int, to as int), needle),
        at < to ==> list@[at as int] == needle,
{
    let mut at = from;
    let ghost whole = list@.subrange(from as int, to as int);
    while at < to && list[at] != needle
        invariant
            from <= at <= to <= list@.len(),
            first_of(whole, needle) == (at - from) + first_of(list@.subrange(at as int, to as int), needle),
        decreases to - at,
    {
        assert(list@.subrange(at as int, to as int).drop_first() =~= list@.subrange(at + 1, to as int));
        at += 1;
    }
    at
}

/// The parts of `text` between its separators.
pub open spec fn split(text: Seq<char>, separator: char) -> Seq<Seq<char>>
    decreases text.len(),
{
    if text.len() == 0 {
        seq![Seq::empty()]
    } else {
        let parts = split(text.drop_last(), separator);
        if text.last() == separator {
            parts.push(Seq::empty())
        } else {
            parts.drop_last().push(parts.last().push(text.last()))
        }
    }
}

/// The parts of `list` that the ranges `ranges` say.
pub open spec fn parts_of(list: Seq<char>, ranges: Seq<(usize, usize)>) -> Seq<Seq<char>> {
    ranges.map_values(|range: (usize, usize)| list.subrange(range.0 as int, range.1 as int))
}

/// Every range lies in a text of `length` characters.
pub open spec fn ranges_fit(ranges: Seq<(usize, usize)>, length: nat) -> bool {
    forall|i: int| 0 <= i < ranges.len() ==> (#[trigger] ranges[i]).0 <= ranges[i].1 <= length
}

/// Where the parts of `list` between its separators are.
pub(crate) fn split_ranges(list: &Vec<char>, separator: char) -> (ranges: Vec<(usize, usize)>)
    ensures
        ranges_fit(ranges@, list@.len()),
        parts_of(list@, ranges@) == split(list@, separator),
{
    let mut ranges: Vec<(usize, usize)> = Vec::new();
    let mut start: usize = 0;
    let mut i: usize = 0;
    assert(list@.take(0) =~= Seq::<char>::empty());
    assert(parts_of(list@, ranges@).push(list@.subrange(0, 0)) =~= split(list@.take(0), separator));
    while i < list.len()
        invariant
            start <= i <= list@.len(),
            ranges_fit(ranges@, list@.len()),
            parts_of(list@, ranges@).push(list@.subrange(start as int, i as int)) == split(
                list@.take(i as int),
                separator,
            ),
        decreases list@.len() - i,
    {
        let ghost before = ranges@;
        let ghost parts = parts_of(list@, before);
        let ghost part = list@.subrange(start as int, i as int);
        proof {
            assert(list@.take(i + 1).drop_last() =~= list@.take(i as int));
            assert(list@.take(i + 1).last() == list@[i as int]);
            assert(parts.push(part).drop_last() =~= parts);
        }
        if list[i] == separator {
            ranges.push((start, i));
            start = i + 1;
            proof {
                assert(parts_of(list@, ranges@) =~= parts.push(part));
                assert(list@.subrange(start as int, i + 1) =~= Seq::<char>::empty());
                assert(parts_of(list@, ranges@).push(list@.subrange(start as int, i + 1)) =~= split(
                    list@.take(i + 1),
                    separator,
                ));
            }
        } else {
            proof {
                assert(list@.subrange(start as int, i + 1) =~= part.push(list@[i as int]));
                assert(parts.push(list@.subrange(start as int, i + 1)) =~= split(list@.take(i + 1), separator));
            }
        }
        i += 1;
    }
    let ghost before = ranges@;
    ranges.push((start, i));
    proof {
        assert(list@.take(i as int) =~= list@);
        assert(parts_of(list@, ranges@) =~= parts_of(list@, before).push(list@.subrange(start as int, i as int)));
    }
    ranges
}

/// `c` in lower case, where it is an ASCII letter.
pub open spec fn ascii_lower(c: char) -> char {
    if 'A' <= c <= 'Z' {
        (c as u32 + 32) as char
    } else {
        c
    }
}

/// `text` with its ASCII letters in lower case.
pub open spec fn ascii_lowered(text: Seq<char>) -> Seq<char> {
    text.map_values(|c: char| ascii_lower(c))
}

fn lower(c: char) -> (lowered: char)
    ensures
        lowered == ascii_lower(c),
{
    if 'A' <= c && c <= 'Z' {
        let code: u8 = c as u8;
        (code + 32) as char
    } else {
        c
    }
}

/// Whether the part of `list` from `from` to `to` is `word`, but for the case
/// of ASCII letters. `word` is in lower case.
pub(crate) fn is_word(list: &Vec<char>, from: usize, to: usize, word: &str) -> (same: bool)
    requires
        from <= to <= list@.len(),
    ensures
        same == (ascii_lowered(list@.subrange(from as int, to as int)) == word@),
{
    let ghost part = ascii_lowered(list@.subrange(from as int, to as int));
    if word.unicode_len() != to - from {
        assert(part.len() != word@.len());
        return false;
    }
    let mut i: usize = 0;
    while i < to - from
        invariant
            from <= to <= list@.len(),
            i <= to - from,
            word@.len() == to - from,
            part == ascii_lowered(list@.subrange(from as int, to as int)),
            forall|j: int| 0 <= j < i ==> #[trigger] part[j] == word@[j],
        decreases to - from - i,
    {
        if lower(list[from + i]) != word.get_char(i) {
            assert(part[i as int] != word@[i as int]);
            return false;
        }
        assert(part[i as int] == word@[i as int]);
        i += 1;
    }
    assert(part =~= word@);
    true
}

} // verus!
