//! What the operations on text do.
use crate::text::{
    ascii_lower, ascii_lowered, bool_text, decimal_text, digit_text, first_of, is_space, split, trim_back, trim_front,
    trimmed,
};
use vstd::prelude::*;

verus! {

/// `text` is all white space.
pub open spec fn all_space(text: Seq<char>) -> bool {
    forall|i: int| 0 <= i < text.len() ==> is_space(#[trigger] text[i])
}

/// `c` does not occur in `text`.
pub open spec fn lacks(text: Seq<char>, c: char) -> bool {
    forall|i: int| 0 <= i < text.len() ==> #[trigger] text[i] != c
}

/// White space is what Unicode calls so: tabs and line breaks, the space, and
/// the spaces of other scripts.
pub proof fn law_white_space_is_that_of_unicode(c: char)
    ensures
        is_space(c) <==> ({
            let code = c as u32;
            ||| 9 <= code <= 13
            ||| code == 32
            ||| code == 133
            ||| code == 160
            ||| code == 5760
            ||| 8192 <= code <= 8202
            ||| code == 8232
            ||| code == 8233
            ||| code == 8239
            ||| code == 8287
            ||| code == 12288
        }),
{
}

proof fn lemma_trim_front(text: Seq<char>) -> (cut: int)
    ensures
        0 <= cut <= text.len(),
        trim_front(text) == text.skip(cut),
        all_space(text.take(cut)),
        cut < text.len() ==> !is_space(text[cut]),
    decreases text.len(),
{
    if text.len() > 0 && is_space(text[0]) {
        let rest = text.drop_first();
        let cut = lemma_trim_front(rest);
        assert(rest.skip(cut) =~= text.skip(cut + 1));
        assert forall|i: int| 0 <= i < cut + 1 implies is_space(#[trigger] text.take(cut + 1)[i]) by {
            if i > 0 {
                assert(rest.take(cut)[i - 1] == text[i]);
            }
        }
        cut + 1
    } else {
        assert(text.skip(0) =~= text);
        0
    }
}

proof fn lemma_trim_back(text: Seq<char>) -> (cut: int)
    ensures
        0 <= cut <= text.len(),
        trim_back(text) == text.take(cut),
        all_space(text.skip(cut)),
        cut > 0 ==> !is_space(text[cut - 1]),
    decreases text.len(),
{
    if text.len() > 0 && is_space(text.last()) {
        let rest = text.drop_last();
        let cut = lemma_trim_back(rest);
        assert(rest.take(cut) =~= text.take(cut));
        assert forall|i: int| 0 <= i < text.skip(cut).len() implies is_space(#[trigger] text.skip(cut)[i]) by {
            if i < rest.len() - cut {
                assert(rest.skip(cut)[i] == text[cut + i]);
            }
        }
        cut
    } else {
        assert(text.take(text.len() as int) =~= text);
        text.len() as int
    }
}

/// Where a text without white space around it is in the text.
pub proof fn lemma_trimmed(text: Seq<char>) -> (range: (int, int))
    ensures
        0 <= range.0 <= range.1 <= text.len(),
        trimmed(text) == text.subrange(range.0, range.1),
        all_space(text.take(range.0)),
        all_space(text.skip(range.1)),
        range.0 < range.1 ==> !is_space(text[range.0]) && !is_space(text[range.1 - 1]),
{
    let start = lemma_trim_front(text);
    let rest = text.skip(start);
    let length = lemma_trim_back(rest);
    assert(rest.take(length) =~= text.subrange(start, start + length));
    assert(text.skip(start + length) =~= rest.skip(length));
    if length > 0 {
        assert(rest[length - 1] == text[start + length - 1]);
    }
    (start, start + length)
}

/// Trimming takes white space off both ends of a text, all of it, and nothing
/// else.
pub proof fn law_trimming_takes_outer_space_off(text: Seq<char>)
    ensures
        exists|before: Seq<char>, after: Seq<char>|
            #![trigger before + trimmed(text) + after]
            text == before + trimmed(text) + after && all_space(before) && all_space(after),
        trimmed(text).len() > 0 ==> !is_space(trimmed(text)[0]) && !is_space(trimmed(text).last()),
        trimmed(text).len() == 0 <==> all_space(text),
{
    let range = lemma_trimmed(text);
    let before = text.take(range.0);
    let after = text.skip(range.1);
    assert(text =~= before + trimmed(text) + after);
    if trimmed(text).len() == 0 {
        assert forall|i: int| 0 <= i < text.len() implies is_space(#[trigger] text[i]) by {
            if i < range.0 {
                assert(before[i] == text[i]);
            } else {
                assert(after[i - range.1] == text[i]);
            }
        }
    } else if all_space(text) {
        assert(is_space(text[range.0]));
    }
}

/// A text with no white space at its ends is trimmed already, and trimming
/// takes off whatever white space is put around it.
pub proof fn law_trimming_undoes_padding(before: Seq<char>, text: Seq<char>, after: Seq<char>)
    requires
        all_space(before),
        all_space(after),
        text.len() > 0 ==> !is_space(text[0]) && !is_space(text.last()),
    ensures
        trimmed(before + text + after) == text,
{
    let padded = before + text + after;
    let range = lemma_trimmed(padded);
    if text.len() == 0 {
        assert forall|i: int| 0 <= i < padded.len() implies is_space(#[trigger] padded[i]) by {
            if i < before.len() {
                assert(padded[i] == before[i]);
            } else {
                assert(padded[i] == after[i - before.len()]);
            }
        }
        if range.0 < range.1 {
            assert(is_space(padded[range.0]));
        }
        assert(trimmed(padded) =~= text);
    } else {
        let start = before.len() as int;
        let end = start + text.len();
        assert(padded[start] == text[0]);
        assert(padded[end - 1] == text.last());
        if range.0 > start {
            assert(padded.take(range.0)[start] == padded[start]);
        }
        if range.1 < end {
            assert(padded.skip(range.1)[end - 1 - range.1] == padded[end - 1]);
        }
        if range.0 < start {
            assert(padded[range.0] == before[range.0]);
        }
        if range.1 > end {
            assert(padded[range.1 - 1] == after[range.1 - 1 - end]);
        }
        assert(trimmed(padded) =~= text);
    }
}

/// The first position of a character is the first one: the character is
/// there, and nowhere before.
pub proof fn law_first_position_is_the_first(text: Seq<char>, needle: char)
    ensures
        0 <= first_of(text, needle) <= text.len(),
        first_of(text, needle) < text.len() ==> text[first_of(text, needle)] == needle,
        lacks(text.take(first_of(text, needle)), needle),
    decreases text.len(),
{
    if text.len() > 0 && text[0] != needle {
        let rest = text.drop_first();
        law_first_position_is_the_first(rest, needle);
        let at = first_of(rest, needle);
        assert forall|i: int| 0 <= i < at + 1 implies #[trigger] text.take(at + 1)[i] != needle by {
            if i > 0 {
                assert(rest.take(at)[i - 1] == text[i]);
            }
        }
    }
}

/// The parts of a list with `separator` between them.
pub open spec fn joined(parts: Seq<Seq<char>>, separator: char) -> Seq<char>
    decreases parts.len(),
{
    if parts.len() == 0 {
        Seq::empty()
    } else if parts.len() == 1 {
        parts[0]
    } else {
        joined(parts.drop_last(), separator).push(separator) + parts.last()
    }
}

/// Splitting loses nothing: the parts with the separator between them are the
/// text, there is at least one part, and no part holds the separator.
pub proof fn law_splitting_finds_the_parts(text: Seq<char>, separator: char)
    ensures
        split(text, separator).len() > 0,
        joined(split(text, separator), separator) == text,
        forall|i: int| 0 <= i < split(text, separator).len() ==> lacks(#[trigger] split(text, separator)[i], separator),
    decreases text.len(),
{
    let parts = split(text, separator);
    if text.len() == 0 {
        assert(joined(parts, separator) =~= text);
    } else {
        let front = split(text.drop_last(), separator);
        law_splitting_finds_the_parts(text.drop_last(), separator);
        if text.last() == separator {
            assert(parts.drop_last() =~= front);
            assert(joined(parts, separator) =~= text);
        } else {
            let last = front.last();
            assert(parts.drop_last() =~= front.drop_last());
            assert(parts.last() == last.push(text.last()));
            assert(lacks(front[front.len() - 1], separator));
            assert(lacks(last.push(text.last()), separator));
            if front.len() > 1 {
                assert(joined(front, separator) == joined(front.drop_last(), separator).push(separator) + last);
            }
            assert(joined(parts, separator) =~= joined(front, separator).push(text.last()));
            assert(text.drop_last().push(text.last()) =~= text);
            assert forall|i: int| 0 <= i < parts.len() implies lacks(#[trigger] parts[i], separator) by {
                if i < parts.len() - 1 {
                    assert(parts[i] == front[i]);
                }
            }
        }
    }
}

/// A text without the separator is one part.
proof fn lemma_split_one(text: Seq<char>, separator: char)
    requires
        lacks(text, separator),
    ensures
        split(text, separator) == seq![text],
    decreases text.len(),
{
    if text.len() == 0 {
        assert(text =~= Seq::empty());
    } else {
        let front = text.drop_last();
        assert(lacks(front, separator)) by {
            assert forall|i: int| 0 <= i < front.len() implies #[trigger] front[i] != separator by {
                assert(text[i] == front[i]);
            }
        }
        lemma_split_one(front, separator);
        assert(text[text.len() - 1] != separator);
        assert(front.push(text.last()) =~= text);
        assert(split(text, separator) =~= seq![text]);
    }
}

proof fn lemma_split_more(front: Seq<char>, part: Seq<char>, separator: char)
    requires
        lacks(part, separator),
    ensures
        split(front.push(separator) + part, separator) == split(front, separator).push(part),
    decreases part.len(),
{
    let text = front.push(separator) + part;
    law_splitting_finds_the_parts(front, separator);
    if part.len() == 0 {
        assert(text =~= front.push(separator));
        assert(text.drop_last() =~= front);
        assert(part =~= Seq::empty());
    } else {
        let shorter = part.drop_last();
        assert(lacks(shorter, separator)) by {
            assert forall|i: int| 0 <= i < shorter.len() implies #[trigger] shorter[i] != separator by {
                assert(part[i] == shorter[i]);
            }
        }
        lemma_split_more(front, shorter, separator);
        assert(text.drop_last() =~= front.push(separator) + shorter);
        assert(text.last() == part[part.len() - 1]);
        let parts = split(front, separator).push(shorter);
        assert(parts.drop_last() =~= split(front, separator));
        assert(shorter.push(part.last()) =~= part);
    }
}

/// Splitting gives back what was put together: parts without the separator
/// come out of the text that holds them with the separator between them.
pub proof fn law_splitting_gives_back_the_parts(parts: Seq<Seq<char>>, separator: char)
    requires
        parts.len() > 0,
        forall|i: int| 0 <= i < parts.len() ==> lacks(#[trigger] parts[i], separator),
    ensures
        split(joined(parts, separator), separator) == parts,
    decreases parts.len(),
{
    assert(lacks(parts[parts.len() - 1], separator));
    if parts.len() == 1 {
        lemma_split_one(parts[0], separator);
        assert(parts =~= seq![parts[0]]);
    } else {
        let front = parts.drop_last();
        assert forall|i: int| 0 <= i < front.len() implies lacks(#[trigger] front[i], separator) by {
            assert(front[i] == parts[i]);
        }
        law_splitting_gives_back_the_parts(front, separator);
        lemma_split_more(joined(front, separator), parts.last(), separator);
        assert(front.push(parts.last()) =~= parts);
    }
}

/// The number that decimal digits stand for.
pub open spec fn number_of(digits: Seq<char>) -> int
    decreases digits.len(),
{
    if digits.len() == 0 {
        0
    } else {
        number_of(digits.drop_last()) * 10 + (digits.last() as u32 - '0' as u32)
    }
}

proof fn lemma_digit(digit: nat)
    requires
        digit < 10,
    ensures
        digit_text(digit).len() == 1,
        '0' <= digit_text(digit)[0] <= '9',
        digit_text(digit)[0] as u32 - '0' as u32 == digit,
        digit > 0 ==> digit_text(digit)[0] != '0',
{
    reveal_strlit("0");
    reveal_strlit("1");
    reveal_strlit("2");
    reveal_strlit("3");
    reveal_strlit("4");
    reveal_strlit("5");
    reveal_strlit("6");
    reveal_strlit("7");
    reveal_strlit("8");
    reveal_strlit("9");
}

/// A number in decimal is digits only, without a zero in front, and stands
/// for the number.
pub proof fn law_decimal_text_is_the_number(number: nat)
    ensures
        number_of(decimal_text(number)) == number,
        decimal_text(number).len() > 0,
        forall|i: int| 0 <= i < decimal_text(number).len() ==> '0' <= #[trigger] decimal_text(number)[i] <= '9',
        number > 0 ==> decimal_text(number)[0] != '0',
    decreases number,
{
    let text = decimal_text(number);
    lemma_digit(number % 10);
    if number < 10 {
        assert(text.drop_last() =~= Seq::empty());
        assert(number_of(text.drop_last()) == 0);
        assert(number % 10 == number);
    } else {
        law_decimal_text_is_the_number(number / 10);
        let front = decimal_text(number / 10);
        assert(text.drop_last() =~= front);
        assert(text[0] == front[0]);
        assert forall|i: int| 0 <= i < text.len() implies '0' <= #[trigger] text[i] <= '9' by {
            if i < front.len() {
                assert(text[i] == front[i]);
            }
        }
    }
}

/// Truth values are written as the words that they are.
pub proof fn law_truth_values_are_words(value: bool)
    ensures
        value ==> bool_text(value) == "true"@,
        !value ==> bool_text(value) == "false"@,
{
}

/// Putting a text in lower case changes its capital ASCII letters to the small
/// ones and nothing else, and a text in lower case stays as it is.
pub proof fn law_lower_case_changes_capitals_alone(text: Seq<char>, i: int)
    requires
        0 <= i < text.len(),
    ensures
        ascii_lowered(text).len() == text.len(),
        'A' <= text[i] <= 'Z' ==> ascii_lowered(text)[i] as u32 - 'a' as u32 == text[i] as u32 - 'A' as u32,
        !('A' <= text[i] <= 'Z') ==> ascii_lowered(text)[i] == text[i],
        ascii_lowered(ascii_lowered(text)) == ascii_lowered(text),
{
    assert forall|k: int| 0 <= k < text.len() implies ascii_lower(#[trigger] ascii_lowered(text)[k])
        == ascii_lowered(text)[k] by {
        assert(ascii_lowered(text)[k] == ascii_lower(text[k]));
        let code = text[k] as u32;
        if 'A' <= text[k] <= 'Z' {
            assert((code + 32) as char as u32 == code + 32);
        }
    }
    assert(ascii_lowered(ascii_lowered(text)) =~= ascii_lowered(text));
}

} // verus!
