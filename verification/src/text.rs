//! Text that the commands put together or search.

use vstd::prelude::*;
use vstd::string::StringExecFns;
use vstd::utf8::{encode_utf8, is_char_boundary, valid_utf8};

verus! {

/// The view of a text that may be absent.
pub open spec fn text_view(text: Option<String>) -> Option<Seq<char>> {
    match text {
        Some(text) => Some(text@),
        None => None,
    }
}

/// The decimal digit of `value`, which is below ten.
pub open spec fn digit(value: nat) -> char {
    if value == 0 {
        '0'
    } else if value == 1 {
        '1'
    } else if value == 2 {
        '2'
    } else if value == 3 {
        '3'
    } else if value == 4 {
        '4'
    } else if value == 5 {
        '5'
    } else if value == 6 {
        '6'
    } else if value == 7 {
        '7'
    } else if value == 8 {
        '8'
    } else {
        '9'
    }
}

/// `value` in decimal digits, without leading zeros.
pub open spec fn decimal(value: nat) -> Seq<char>
    decreases value,
{
    if value < 10 {
        seq![digit(value)]
    } else {
        decimal(value / 10).push(digit(value % 10))
    }
}

/// `value` in decimal digits, with a minus sign where it is negative.
pub open spec fn signed_decimal(value: int) -> Seq<char> {
    if value < 0 {
        seq!['-'] + decimal((-value) as nat)
    } else {
        decimal(value as nat)
    }
}

/// The text of one decimal digit.
fn digit_text(value: u64) -> (text: &'static str)
    requires
        value < 10,
    ensures
        text@ == seq![digit(value as nat)],
{
    proof {
        reveal_strlit("0");
        reveal_strlit("1");
        reveal_strlit("2");
        reveal_strlit("3");
        reveal_strlit("4");
        reveal_strlit("5");
        reveal_strlit("6");
        reveal_strlit("7");
        reveal_strlit("8");
        reveal_strlit("9");
    }
    match value {
        0 => "0",
        1 => "1",
        2 => "2",
        3 => "3",
        4 => "4",
        5 => "5",
        6 => "6",
        7 => "7",
        8 => "8",
        _ => "9",
    }
}

/// Writes `value` in decimal.
pub fn unsigned_to_text(value: u64) -> (text: String)
    ensures
        text@ == decimal(value as nat),
    decreases value,
{
    if value < 10 {
        digit_text(value).to_owned()
    } else {
        let mut text = unsigned_to_text(value / 10);
        text.append(digit_text(value % 10));
        text
    }
}

/// Writes `value` in decimal.
pub fn signed_to_text(value: i32) -> (text: String)
    ensures
        text@ == signed_decimal(value as int),
{
    if value < 0 {
        let mut text = "-".to_owned();
        proof {
            reveal_strlit("-");
        }
        text.append(unsigned_to_text((-(value as i64)) as u64).as_str());
        text
    } else {
        unsigned_to_text(value as u64)
    }
}

/// Whether `needle` stands in `text` from `at` on.
pub open spec fn occurs_at(text: Seq<u8>, needle: Seq<u8>, at: int) -> bool {
    0 <= at && at + needle.len() <= text.len() && text.subrange(at, at + needle.len()) == needle
}

/// Whether `at` is the first place where `needle` stands in `text`.
pub open spec fn first_occurrence(text: Seq<u8>, needle: Seq<u8>, at: int) -> bool {
    &&& occurs_at(text, needle, at)
    &&& forall|before: int| 0 <= before < at ==> !#[trigger] occurs_at(text, needle, before)
}

/// Whether `needle` stands in `text` from `at` on.
fn stands_at(text: &[u8], needle: &[u8], at: usize) -> (found: bool)
    requires
        at + needle@.len() <= text@.len(),
    ensures
        found == occurs_at(text@, needle@, at as int),
{
    let total: usize = text.len();
    let mut i: usize = 0;
    while i < needle.len()
        invariant
            total == text@.len(),
            at + needle@.len() <= total,
            i <= needle@.len(),
            forall|k: int| 0 <= k < i ==> text@[at + k] == needle@[k],
        decreases needle@.len() - i,
    {
        if text[at + i] != needle[i] {
            assert(text@.subrange(at as int, at + needle@.len())[i as int] == text@[at + i]);
            return false;
        }
        i += 1;
    }
    assert(text@.subrange(at as int, at + needle@.len()) =~= needle@);
    true
}

/// The byte range of the first place where `needle` stands in `text`.
pub fn find(text: &str, needle: &str) -> (found: Option<(usize, usize)>)
    ensures
        match found {
            Some((start, end)) => {
                &&& first_occurrence(encode_utf8(text@), encode_utf8(needle@), start as int)
                &&& end == start + encode_utf8(needle@).len()
            },
            None => forall|at: int|
                !#[trigger] occurs_at(encode_utf8(text@), encode_utf8(needle@), at),
        },
{
    let bytes = text.as_bytes();
    let wanted = needle.as_bytes();
    let total: usize = bytes.len();
    if wanted.len() > total {
        return None;
    }
    let last: usize = total - wanted.len();
    let mut at: usize = 0;
    loop
        invariant
            at <= last,
            total == bytes@.len(),
            last == total - wanted@.len(),
            bytes@ == encode_utf8(text@),
            wanted@ == encode_utf8(needle@),
            forall|before: int| 0 <= before < at ==> !#[trigger] occurs_at(bytes@, wanted@, before),
        decreases last - at,
    {
        if stands_at(bytes, wanted, at) {
            return Some((at, at + wanted.len()));
        }
        if at == last {
            return None;
        }
        at += 1;
    }
}

/// The bytes of two texts one after the other are those of each.
proof fn lemma_encode_concat(a: Seq<char>, b: Seq<char>)
    ensures
        encode_utf8(a + b) == encode_utf8(a) + encode_utf8(b),
    decreases a.len(),
{
    if a.len() == 0 {
        assert(a + b =~= b);
        assert(encode_utf8(a) + encode_utf8(b) =~= encode_utf8(b));
    } else {
        lemma_encode_concat(a.drop_first(), b);
        assert((a + b).drop_first() =~= a.drop_first() + b);
        assert(encode_utf8(a + b) =~= encode_utf8(a) + encode_utf8(b));
    }
}

/// A text ends at a boundary between characters, whatever follows it.
proof fn lemma_prefix_ends_at_boundary(prefix: Seq<u8>, rest: Seq<u8>)
    requires
        valid_utf8(prefix),
        valid_utf8(prefix + rest),
    ensures
        is_char_boundary(prefix + rest, prefix.len() as int),
    decreases prefix.len(),
{
    if prefix.len() > 0 {
        let whole = prefix + rest;
        let shorter = vstd::utf8::pop_first_scalar(prefix);
        assert(vstd::utf8::length_of_first_scalar(whole) == vstd::utf8::length_of_first_scalar(
            prefix,
        ));
        assert(vstd::utf8::pop_first_scalar(whole) =~= shorter + rest);
        lemma_prefix_ends_at_boundary(shorter, rest);
    }
}

/// How many UTF-16 units a character takes.
pub open spec fn utf16_width(c: char) -> nat {
    if c as u32 > 0xFFFF {
        2
    } else {
        1
    }
}

/// How many UTF-16 units a text takes.
pub open spec fn utf16_len(text: Seq<char>) -> nat
    decreases text.len(),
{
    if text.len() == 0 {
        0
    } else {
        utf16_len(text.drop_last()) + utf16_width(text.last())
    }
}

/// The longest prefix of `text` that takes at most `index` UTF-16 units.
pub open spec fn utf16_prefix(text: Seq<char>, index: int) -> Seq<char>
    decreases text.len(),
{
    if text.len() == 0 || utf16_len(text) <= index {
        text
    } else {
        utf16_prefix(text.drop_last(), index)
    }
}

/// The byte offset of the UTF-16 unit with number `index` in `text`. Inside a
/// character it is where that character begins, and past the end it is the length
/// of `text` in bytes.
pub open spec fn utf16_byte_offset(text: Seq<char>, index: int) -> nat {
    encode_utf8(utf16_prefix(text, index)).len()
}

/// A prefix takes no more UTF-16 units than a longer one.
proof fn lemma_utf16_len_grows(text: Seq<char>, one: int, other: int)
    requires
        0 <= one <= other <= text.len(),
    ensures
        utf16_len(text.take(one)) <= utf16_len(text.take(other)),
    decreases other - one,
{
    if one < other {
        assert(text.take(other).drop_last() =~= text.take(other - 1));
        lemma_utf16_len_grows(text, one, other - 1);
    }
}

/// A prefix that fits, and is followed by nothing or by a character that does not
/// fit, is the longest one.
proof fn lemma_utf16_prefix_is(text: Seq<char>, index: int, count: int)
    requires
        0 <= count <= text.len(),
        utf16_len(text.take(count)) <= index,
        count < text.len() ==> utf16_len(text.take(count + 1)) > index,
    ensures
        utf16_prefix(text, index) == text.take(count),
    decreases text.len() - count,
{
    if count == text.len() {
        assert(text.take(count) =~= text);
    } else {
        let fewer = text.drop_last();
        assert(text.take(text.len() as int) =~= text);
        lemma_utf16_len_grows(text, count + 1, text.len() as int);
        assert(fewer.take(count) =~= text.take(count));
        if count < fewer.len() {
            assert(fewer.take(count + 1) =~= text.take(count + 1));
        }
        lemma_utf16_prefix_is(fewer, index, count);
    }
}

/// How many bytes a character takes.
fn utf8_width(c: char) -> (width: usize)
    ensures
        width == encode_utf8(seq![c]).len(),
{
    proof {
        assert(seq![c].drop_first() =~= Seq::empty());
        assert(encode_utf8(seq![c].drop_first()) =~= Seq::empty());
        vstd::utf8::char_is_scalar(c);
    }
    let scalar: u32 = c as u32;
    if scalar <= 0x7F {
        1
    } else if scalar <= 0x7FF {
        2
    } else if scalar <= 0xFFFF {
        3
    } else {
        4
    }
}

/// The byte offset of the UTF-16 unit with number `index` in `text`.
pub fn utf16_to_byte_idx(text: &str, index: usize) -> (offset: usize)
    ensures
        offset == utf16_byte_offset(text@, index as int),
{
    let total: usize = text.as_bytes().len();
    let mut offset: usize = 0;
    let mut left: usize = index;
    assert(text@.take(0) =~= Seq::empty());
    for c in it: text.chars()
        invariant
            it.seq() == text@,
            total == encode_utf8(text@).len(),
            offset == encode_utf8(text@.take(it.index() as int)).len(),
            left == index - utf16_len(text@.take(it.index() as int)),
    {
        let width: usize = if c as u32 > 0xFFFF {
            2
        } else {
            1
        };
        proof {
            let count = it.index() as int;
            let longer = text@.take(count + 1);
            assert(c == text@[count]);
            assert(longer.drop_last() =~= text@.take(count));
            assert(longer =~= text@.take(count) + seq![c]);
            lemma_encode_concat(text@.take(count), seq![c]);
            assert(text@ =~= longer + text@.skip(count + 1));
            lemma_encode_concat(longer, text@.skip(count + 1));
            if width > left {
                lemma_utf16_prefix_is(text@, index as int, count);
            }
        }
        if width > left {
            return offset;
        }
        left -= width;
        offset += utf8_width(c);
    }
    proof {
        assert(text@.take(text@.len() as int) =~= text@);
        lemma_utf16_prefix_is(text@, index as int, text@.len() as int);
    }
    offset
}

/// The text before a UTF-16 unit is the longest prefix that fits: it takes no
/// more units than the number of that unit, and every prefix that takes no more
/// lies in it.
pub proof fn law_utf16_prefix_is_longest(text: Seq<char>, index: int, count: int)
    requires
        0 <= index,
        0 <= count <= text.len(),
    ensures
        utf16_prefix(text, index).len() <= text.len(),
        utf16_prefix(text, index) == text.take(utf16_prefix(text, index).len() as int),
        utf16_len(utf16_prefix(text, index)) <= index,
        utf16_len(text.take(count)) <= index <==> count <= utf16_prefix(text, index).len(),
    decreases text.len(),
{
    assert(text.take(text.len() as int) =~= text);
    if text.len() == 0 || utf16_len(text) <= index {
        lemma_utf16_len_grows(text, count, text.len() as int);
    } else {
        let fewer = text.drop_last();
        let shorter = if count < text.len() {
            count
        } else {
            0
        };
        law_utf16_prefix_is_longest(fewer, index, shorter);
        let prefix = utf16_prefix(fewer, index);
        assert(fewer.take(prefix.len() as int) =~= text.take(prefix.len() as int));
        assert(fewer.take(shorter) =~= text.take(shorter));
    }
}

/// The byte offset of a UTF-16 unit lies in the text, at a boundary between
/// characters, and does not fall as the number of the unit grows.
pub proof fn law_utf16_byte_offset(text: Seq<char>, index: int, later: int)
    requires
        0 <= index <= later,
    ensures
        utf16_byte_offset(text, index) <= utf16_byte_offset(text, later) <= encode_utf8(text).len(),
        is_char_boundary(encode_utf8(text), utf16_byte_offset(text, index) as int),
{
    law_utf16_prefix_is_longest(text, index, 0);
    let one = utf16_prefix(text, index).len() as int;
    law_utf16_prefix_is_longest(text, later, one);
    let other = utf16_prefix(text, later).len() as int;
    assert(text.take(other) =~= text.take(one) + text.subrange(one, other));
    lemma_encode_concat(text.take(one), text.subrange(one, other));
    assert(text =~= text.take(other) + text.skip(other));
    lemma_encode_concat(text.take(other), text.skip(other));
    assert(text =~= text.take(one) + text.skip(one));
    lemma_encode_concat(text.take(one), text.skip(one));
    vstd::utf8::encode_utf8_valid_utf8(text);
    vstd::utf8::encode_utf8_valid_utf8(text.take(one));
    lemma_prefix_ends_at_boundary(encode_utf8(text.take(one)), encode_utf8(text.skip(one)));
}

/// The first place of one text in another begins and ends at boundaries between
/// characters.
pub proof fn law_first_occurrence_at_boundaries(text: Seq<char>, needle: Seq<char>, at: int)
    requires
        first_occurrence(encode_utf8(text), encode_utf8(needle), at),
    ensures
        is_char_boundary(encode_utf8(text), at),
        is_char_boundary(encode_utf8(text), at + encode_utf8(needle).len()),
{
    let bytes = encode_utf8(text);
    let wanted = encode_utf8(needle);
    vstd::utf8::encode_utf8_valid_utf8(text);
    vstd::utf8::encode_utf8_valid_utf8(needle);
    if wanted.len() == 0 {
        if at > 0 {
            assert(bytes.subrange(0, 0) =~= wanted);
            assert(occurs_at(bytes, wanted, 0));
        }
    } else {
        assert(bytes.subrange(at, at + wanted.len())[0] == bytes[at]);
        vstd::utf8::is_char_boundary_iff_not_is_continuation_byte(wanted, 0);
        vstd::utf8::is_char_boundary_iff_not_is_continuation_byte(bytes, at);
        vstd::utf8::valid_utf8_split(bytes, at);
        let prefix = bytes.subrange(0, at) + wanted;
        let rest = bytes.subrange(at + wanted.len(), bytes.len() as int);
        vstd::utf8::valid_utf8_concat(bytes.subrange(0, at), wanted);
        assert(bytes =~= prefix + rest);
        lemma_prefix_ends_at_boundary(prefix, rest);
    }
}

/// The number that decimal digits stand for.
pub open spec fn digits_value(text: Seq<char>) -> int
    decreases text.len(),
{
    if text.len() == 0 {
        0
    } else {
        10 * digits_value(text.drop_last()) + (text.last() as int - '0' as int)
    }
}

/// A number in decimal reads back as that number. It has at least one digit, holds
/// nothing but digits, and begins with a zero only where it is zero.
pub proof fn law_decimal_reads_back(value: nat)
    ensures
        digits_value(decimal(value)) == value,
        decimal(value).len() > 0,
        forall|i: int|
            0 <= i < decimal(value).len() ==> '0' <= #[trigger] decimal(value)[i] <= '9',
        decimal(value)[0] == '0' ==> value == 0 && decimal(value).len() == 1,
    decreases value,
{
    reveal_with_fuel(digits_value, 2);
    if value < 10 {
        assert(decimal(value).drop_last() =~= Seq::empty());
    } else {
        law_decimal_reads_back(value / 10);
        assert(decimal(value).drop_last() =~= decimal(value / 10));
        assert(decimal(value)[0] == decimal(value / 10)[0]);
        assert forall|i: int| 0 <= i < decimal(value).len() implies '0' <= #[trigger] decimal(
            value,
        )[i] <= '9' by {
            if i < decimal(value / 10).len() {
                assert(decimal(value)[i] == decimal(value / 10)[i]);
            }
        }
    }
}

/// A negative number in decimal is a minus sign before the number without its
/// sign, and any other number has no sign.
pub proof fn law_signed_decimal_reads_back(value: int)
    ensures
        value < 0 ==> signed_decimal(value)[0] == '-' && digits_value(
            signed_decimal(value).skip(1),
        ) == -value,
        value >= 0 ==> digits_value(signed_decimal(value)) == value && signed_decimal(value)[0]
            != '-',
{
    if value < 0 {
        law_decimal_reads_back((-value) as nat);
        assert(signed_decimal(value).skip(1) =~= decimal((-value) as nat));
    } else {
        law_decimal_reads_back(value as nat);
        assert('0' <= decimal(value as nat)[0]);
    }
}

/// A text stands in another one where all its bytes do, and its first place is
/// where it stands and before which it never does.
pub proof fn law_first_place(text: Seq<u8>, needle: Seq<u8>, at: int)
    ensures
        occurs_at(text, needle, at) <==> 0 <= at <= text.len() - needle.len() && forall|k: int|
            0 <= k < needle.len() ==> text[at + k] == #[trigger] needle[k],
        first_occurrence(text, needle, at) <==> occurs_at(text, needle, at) && forall|before: int|
            0 <= before < at ==> !#[trigger] occurs_at(text, needle, before),
{
    if 0 <= at <= text.len() - needle.len() {
        let part = text.subrange(at, at + needle.len());
        if forall|k: int| 0 <= k < needle.len() ==> text[at + k] == #[trigger] needle[k] {
            assert(part =~= needle);
        }
        if part == needle {
            assert forall|k: int| 0 <= k < needle.len() implies text[at + k]
                == #[trigger] needle[k] by {
                assert(part[k] == text[at + k]);
            }
        }
    }
}

/// A character above U+FFFF takes two UTF-16 units, every other one takes one, and
/// two texts one after the other take what each takes.
pub proof fn law_utf16_units(one: Seq<char>, other: Seq<char>, c: char)
    ensures
        utf16_len(one + other) == utf16_len(one) + utf16_len(other),
        utf16_len(Seq::empty()) == 0,
        utf16_len(seq![c]) == (if c as u32 > 0xFFFF {
            2int
        } else {
            1int
        }),
    decreases other.len(),
{
    assert(seq![c].drop_last() =~= Seq::empty());
    assert(utf16_len(seq![c].drop_last()) == 0);
    if other.len() == 0 {
        assert(one + other =~= one);
    } else {
        law_utf16_units(one, other.drop_last(), c);
        assert((one + other).drop_last() =~= one + other.drop_last());
    }
}

/// The byte offset of a UTF-16 unit is the length in bytes of the text before it:
/// of the characters that end at or before that unit.
pub proof fn law_utf16_byte_offset_is_exact(text: Seq<char>, index: int, count: int)
    requires
        0 <= count <= text.len(),
        utf16_len(text.take(count)) <= index,
        count < text.len() ==> utf16_len(text.take(count + 1)) > index,
    ensures
        utf16_byte_offset(text, index) == encode_utf8(text.take(count)).len(),
{
    lemma_utf16_prefix_is(text, index, count);
}

/// A text that may be absent is read as it is.
pub proof fn law_text_view_is_faithful(text: Option<String>)
    ensures
        text is None <==> text_view(text) is None,
        text matches Some(text) ==> text_view(Some(text)) == Some(text@),
{
}

} // verus!
