//! Small text routines the bridge is built from: decimal numerals, joining
//! with a separator, and trimming of surrounding whitespace.

use vstd::prelude::*;
use vstd::std_specs::iter::IteratorSpec;
use vstd::string::*;

verus! {

/// `str` equality. Taken on trust: two string slices compare equal exactly
/// when they hold the same characters.
pub assume_specification[ <str as PartialEq>::eq ](left: &str, right: &str) -> (same: bool)
    ensures
        same == (left@ == right@),
;

/// The character that writes the digit `d`, for `d` below ten.
pub open spec fn digit_char(d: nat) -> char {
    if d == 0 {
        '0'
    } else if d == 1 {
        '1'
    } else if d == 2 {
        '2'
    } else if d == 3 {
        '3'
    } else if d == 4 {
        '4'
    } else if d == 5 {
        '5'
    } else if d == 6 {
        '6'
    } else if d == 7 {
        '7'
    } else if d == 8 {
        '8'
    } else {
        '9'
    }
}

/// The decimal numeral of `n`: most significant digit first, no sign, no
/// leading zero except for zero itself.
pub open spec fn decimal(n: nat) -> Seq<char>
    decreases n,
{
    if n < 10 {
        seq![digit_char(n)]
    } else {
        decimal(n / 10).push(digit_char(n % 10))
    }
}

/// The decimal numeral of an integer, with a leading minus sign below zero.
pub open spec fn signed_decimal(n: int) -> Seq<char> {
    if n < 0 {
        seq!['-'] + decimal((-n) as nat)
    } else {
        decimal(n as nat)
    }
}

/// The parts written one after another with `separator` between neighbours.
pub open spec fn joined(parts: Seq<Seq<char>>, separator: Seq<char>) -> Seq<char>
    decreases parts.len(),
{
    if parts.len() == 0 {
        Seq::empty()
    } else if parts.len() == 1 {
        parts[0]
    } else {
        joined(parts.drop_last(), separator) + separator + parts.last()
    }
}

/// The views of the strings of a vector, in order.
pub open spec fn texts(strings: Seq<String>) -> Seq<Seq<char>> {
    Seq::new(strings.len(), |i: int| strings[i]@)
}

fn digit_str(d: u8) -> (text: &'static str)
    requires
        d < 10,
    ensures
        text@ == seq![digit_char(d as nat)],
{
    proof {
        reveal_strlit("0");
        reveal_strlit("1");
        reveal_strlit("2");
        reveal_strlit("3");
        reveal_strlit("4");
        reveal_strlit("5");
        reveal_strlit("6");
        reveal_strlit("7");
        reveal_strlit("8");
        reveal_strlit("9");
    }
    let text = match d {
        0 => "0",
        1 => "1",
        2 => "2",
        3 => "3",
        4 => "4",
        5 => "5",
        6 => "6",
        7 => "7",
        8 => "8",
        _ => "9",
    };
    assert(text@ =~= seq![digit_char(d as nat)]);
    text
}

/// Writes `n` as a decimal numeral.
pub fn decimal_string(n: u128) -> (text: String)
    ensures
        text@ == decimal(n as nat),
    decreases n,
{
    if n < 10 {
        digit_str(n as u8).to_owned()
    } else {
        let mut text = decimal_string(n / 10);
        text.append(digit_str((n % 10) as u8));
        assert(text@ =~= decimal((n / 10) as nat).push(digit_char((n % 10) as nat)));
        text
    }
}

/// Writes `n` as a decimal numeral, with a minus sign if it is negative.
pub fn signed_decimal_string(n: i32) -> (text: String)
    ensures
        text@ == signed_decimal(n as int),
{
    if n < 0 {
        let magnitude: u128 = (-(n as i64)) as u128;
        let mut text = String::from_str("-");
        let digits = decimal_string(magnitude);
        text.append(digits.as_str());
        proof {
            reveal_strlit("-");
            assert(text@ =~= seq!['-'] + decimal((-n) as nat));
        }
        text
    } else {
        decimal_string(n as u128)
    }
}

/// Writes the strings one after another with `separator` between neighbours.
pub fn join(parts: &Vec<String>, separator: &str) -> (text: String)
    ensures
        text@ == joined(texts(parts@), separator@),
{
    let mut text = String::new();
    let mut i: usize = 0;
    while i < parts.len()
        invariant
            i <= parts.len(),
            text@ == joined(texts(parts@).take(i as int), separator@),
        decreases parts.len() - i,
    {
        let ghost before = texts(parts@).take(i as int);
        let ghost after = texts(parts@).take(i + 1);
        proof {
            assert(after.drop_last() =~= before);
            assert(after.last() == parts@[i as int]@);
        }
        if i > 0 {
            text.append(separator);
        }
        text.append(parts[i].as_str());
        proof {
            if i == 0 {
                assert(text@ =~= parts@[0]@);
            }
        }
        i = i + 1;
    }
    proof {
        assert(texts(parts@).take(parts.len() as int) =~= texts(parts@));
    }
    text
}

/// The digit that `c` writes, and `None` for any other character.
pub open spec fn digit_value(c: char) -> Option<nat> {
    if c == '0' {
        Some(0nat)
    } else if c == '1' {
        Some(1nat)
    } else if c == '2' {
        Some(2nat)
    } else if c == '3' {
        Some(3nat)
    } else if c == '4' {
        Some(4nat)
    } else if c == '5' {
        Some(5nat)
    } else if c == '6' {
        Some(6nat)
    } else if c == '7' {
        Some(7nat)
    } else if c == '8' {
        Some(8nat)
    } else if c == '9' {
        Some(9nat)
    } else {
        None
    }
}

/// The number that `text` writes as a decimal numeral, and `None` for text
/// that is no numeral: empty text, text with a character that is no digit,
/// and digits after a leading zero.
pub open spec fn numeral_value(text: Seq<char>) -> Option<nat>
    decreases text.len(),
{
    if text.len() == 0 {
        None
    } else {
        match digit_value(text.last()) {
            None => None,
            Some(digit) => if text.len() == 1 {
                Some(digit)
            } else {
                match numeral_value(text.drop_last()) {
                    Some(front) => if front > 0 {
                        Some(10 * front + digit)
                    } else {
                        None
                    },
                    None => None,
                }
            },
        }
    }
}

/// The number that `text` writes, if it is a numeral of a number that fits
/// in 32 bits.
pub open spec fn numeral_u32(text: Seq<char>) -> Option<u32> {
    match numeral_value(text) {
        Some(value) => if value <= u32::MAX {
            Some(value as u32)
        } else {
            None
        },
        None => None,
    }
}

/// A decimal numeral has at least one digit.
pub proof fn lemma_decimal_nonempty(n: nat)
    ensures
        decimal(n).len() > 0,
    decreases n,
{
    if n >= 10 {
        lemma_decimal_nonempty(n / 10);
    }
}

/// Reading the numeral of a number gives the number back.
pub proof fn lemma_numeral_of_decimal(n: nat)
    ensures
        numeral_value(decimal(n)) == Some(n),
    decreases n,
{
    if n < 10 {
        assert(decimal(n).last() == digit_char(n));
    } else {
        let front = decimal(n / 10);
        lemma_decimal_nonempty(n / 10);
        lemma_numeral_of_decimal(n / 10);
        assert(decimal(n).drop_last() =~= front);
        assert(decimal(n).last() == digit_char(n % 10));
        assert(digit_value(digit_char(n % 10)) == Some(n % 10));
    }
}

/// Writing the number that a numeral reads as gives the numeral back: each
/// number has one numeral only.
pub proof fn lemma_decimal_of_numeral(text: Seq<char>)
    requires
        numeral_value(text) is Some,
    ensures
        decimal(numeral_value(text).unwrap()) == text,
    decreases text.len(),
{
    let digit = digit_value(text.last()).unwrap();
    assert(digit_char(digit) == text.last());
    if text.len() == 1 {
        assert(decimal(digit) =~= text);
    } else {
        let front = numeral_value(text.drop_last()).unwrap();
        lemma_decimal_of_numeral(text.drop_last());
        let value = 10 * front + digit;
        assert(value / 10 == front && value % 10 == digit);
        assert(decimal(value) =~= text);
    }
}

/// Every beginning of a numeral is a numeral, of a number that is not
/// greater.
pub proof fn lemma_numeral_prefix(text: Seq<char>, k: int)
    requires
        numeral_value(text) is Some,
        0 < k <= text.len(),
    ensures
        numeral_value(text.take(k)) is Some,
        numeral_value(text.take(k)).unwrap() <= numeral_value(text).unwrap(),
    decreases text.len() - k,
{
    if k == text.len() {
        assert(text.take(k) =~= text);
    } else {
        lemma_numeral_prefix(text.drop_last(), k);
        assert(text.drop_last().take(k) =~= text.take(k));
    }
}

fn digit_of(c: char) -> (digit: Option<u8>)
    ensures
        match digit {
            Some(d) => digit_value(c) == Some(d as nat),
            None => digit_value(c) is None,
        },
{
    match c {
        '0' => Some(0),
        '1' => Some(1),
        '2' => Some(2),
        '3' => Some(3),
        '4' => Some(4),
        '5' => Some(5),
        '6' => Some(6),
        '7' => Some(7),
        '8' => Some(8),
        '9' => Some(9),
        _ => None,
    }
}

/// Reads `text` as the decimal numeral of a 32-bit number.
///
/// Only the numeral that [`decimal_string`] writes for a number is read as
/// that number: no sign, no blanks, no leading zero.
pub fn parse_u32(text: &str) -> (parsed: Option<u32>)
    ensures
        parsed == numeral_u32(text@),
{
    let n = text.unicode_len();
    let mut chars = text.chars();
    let mut index: usize = 0;
    let mut value: u64 = 0;
    loop
        invariant
            n == text@.len(),
            index <= n,
            chars.remaining() == text@.skip(index as int),
            index == 0 ==> value == 0,
            index > 0 ==> numeral_value(text@.take(index as int)) == Some(value as nat),
            value <= u32::MAX,
        ensures
            index == n,
        decreases n - index,
    {
        match chars.next() {
            Some(c) => {
                let ghost longer = text@.take(index + 1);
                proof {
                    assert(c == text@[index as int]);
                    assert(text@.skip(index as int).drop_first() =~= text@.skip(index + 1));
                    assert(longer.last() == c);
                    assert(longer.drop_last() =~= text@.take(index as int));
                    if numeral_value(text@) is Some {
                        lemma_numeral_prefix(text@, index + 1);
                    }
                }
                match digit_of(c) {
                    None => {
                        return None;
                    },
                    Some(digit) => {
                        if index > 0 && value == 0 {
                            return None;
                        }
                        let next: u64 = value * 10 + digit as u64;
                        assert(numeral_value(longer) == Some(next as nat));
                        if next > u32::MAX as u64 {
                            return None;
                        }
                        value = next;
                        index = index + 1;
                    },
                }
            },
            None => {
                break ;
            },
        }
    }
    proof {
        assert(text@.take(n as int) =~= text@);
    }
    if index == 0 {
        None
    } else {
        Some(value as u32)
    }
}

/// Whether `c` counts as whitespace: whether Unicode gives it the property
/// `White_Space`.
pub uninterp spec fn white_space(c: char) -> bool;

/// `char::is_whitespace`. Taken on trust: the answer is [`white_space`] of
/// the character.
#[verifier::external_body]
fn is_whitespace(c: char) -> (white: bool)
    ensures
        white == white_space(c),
{
    c.is_whitespace()
}

/// The text without its leading whitespace.
pub open spec fn trim_start(text: Seq<char>) -> Seq<char>
    decreases text.len(),
{
    if text.len() > 0 && white_space(text.first()) {
        trim_start(text.drop_first())
    } else {
        text
    }
}

/// The text without its trailing whitespace.
pub open spec fn trim_end(text: Seq<char>) -> Seq<char>
    decreases text.len(),
{
    if text.len() > 0 && white_space(text.last()) {
        trim_end(text.drop_last())
    } else {
        text
    }
}

/// The text without the whitespace at either end.
pub open spec fn trimmed(text: Seq<char>) -> Seq<char> {
    trim_end(trim_start(text))
}

/// Leading whitespace ends where the first other character stands.
pub proof fn lemma_trim_start_skips(text: Seq<char>, k: int)
    requires
        0 <= k <= text.len(),
        forall|i: int| 0 <= i < k ==> white_space(#[trigger] text[i]),
        k < text.len() ==> !white_space(text[k]),
    ensures
        trim_start(text) == text.skip(k),
    decreases k,
{
    if k == 0 {
        assert(text.skip(0) =~= text);
    } else {
        let rest = text.drop_first();
        assert forall|i: int| 0 <= i < k - 1 implies white_space(#[trigger] rest[i]) by {
            assert(rest[i] == text[i + 1]);
        }
        lemma_trim_start_skips(rest, k - 1);
        assert(rest.skip(k - 1) =~= text.skip(k));
    }
}

/// Trailing whitespace starts right after the last other character.
pub proof fn lemma_trim_end_takes(text: Seq<char>, k: int)
    requires
        0 <= k <= text.len(),
        forall|i: int| k <= i < text.len() ==> white_space(#[trigger] text[i]),
        0 < k ==> !white_space(text[k - 1]),
    ensures
        trim_end(text) == text.take(k),
    decreases text.len() - k,
{
    if k == text.len() {
        assert(text.take(k) =~= text);
    } else {
        let rest = text.drop_last();
        lemma_trim_end_takes(rest, k);
        assert(rest.take(k) =~= text.take(k));
    }
}

/// Removes the whitespace at both ends of `text`.
pub fn trim(text: &str) -> (inner: &str)
    ensures
        inner@ == trimmed(text@),
{
    let n = text.unicode_len();
    let mut chars = text.chars();
    let mut index: usize = 0;
    let mut found = false;
    let mut start: usize = 0;
    let mut end: usize = 0;
    loop
        invariant
            n == text@.len(),
            index <= n,
            chars.remaining() == text@.skip(index as int),
            !found ==> start == 0 && end == 0,
            !found ==> forall|i: int| 0 <= i < index ==> white_space(#[trigger] text@[i]),
            found ==> start < end <= index,
            found ==> forall|i: int| 0 <= i < start ==> white_space(#[trigger] text@[i]),
            found ==> !white_space(text@[start as int]) && !white_space(text@[end - 1]),
            found ==> forall|i: int| end <= i < index ==> white_space(#[trigger] text@[i]),
        ensures
            index == n,
        decreases n - index,
    {
        match chars.next() {
            Some(c) => {
                assert(c == text@[index as int]);
                assert(text@.skip(index as int).drop_first() =~= text@.skip(index + 1));
                if !is_whitespace(c) {
                    if !found {
                        found = true;
                        start = index;
                    }
                    end = index + 1;
                }
                index = index + 1;
            },
            None => {
                break ;
            },
        }
    }
    proof {
        if found {
            lemma_trim_start_skips(text@, start as int);
            let rest = text@.skip(start as int);
            assert forall|i: int| end - start <= i < rest.len() implies white_space(
                #[trigger] rest[i],
            ) by {
                assert(rest[i] == text@[i + start]);
            }
            assert(rest[end - start - 1] == text@[end - 1]);
            lemma_trim_end_takes(rest, end - start);
            assert(rest.take(end - start) =~= text@.subrange(start as int, end as int));
        } else {
            lemma_trim_start_skips(text@, n as int);
            assert(text@.skip(n as int) =~= Seq::<char>::empty());
            assert(text@.subrange(0, 0) =~= Seq::<char>::empty());
        }
    }
    text.substring_char(start, end)
}

/// The text that lossy decoding makes of `bytes`: the decoded characters,
/// with U+FFFD in place of every ill-formed sequence.
pub uninterp spec fn utf8_lossy(bytes: Seq<u8>) -> Seq<char>;

/// `String::from_utf8_lossy`, copied into an owned string. Taken on trust:
/// the result is [`utf8_lossy`] of the bytes, and well-formed UTF-8 decodes
/// to exactly the characters it encodes.
#[verifier::external_body]
pub(crate) fn from_utf8_lossy(bytes: &Vec<u8>) -> (text: String)
    ensures
        text@ == utf8_lossy(bytes@),
        vstd::utf8::valid_utf8(bytes@) ==> text@ == vstd::utf8::decode_utf8(bytes@),
{
    String::from_utf8_lossy(bytes).into_owned()
}

} // verus!
