//! Numbers as decimal text, as the settings file holds them.
//!
//! A number is written without sign or padding. It is read the way the
//! standard integer parsers read: an optional sign (`+`, and `-` for signed
//! numbers) followed by at least one ASCII digit and nothing else, with a
//! value that the target type can hold.

use vstd::prelude::*;
use vstd::std_specs::iter::IteratorSpec;
use vstd::string::StringExecFns;

verus! {

/// Whether `c` is one of the ASCII digits.
pub open spec fn is_digit(c: char) -> bool {
    48 <= c as u32 <= 57
}

/// The value of an ASCII digit.
pub open spec fn digit_value(c: char) -> int {
    c as u32 - 48
}

/// The ASCII digit for a value below ten.
pub open spec fn digit_char(d: int) -> char {
    (d + 48) as char
}

/// Whether a text consists of ASCII digits only.
pub open spec fn all_digits(text: Seq<char>) -> bool {
    forall|i: int| 0 <= i < text.len() ==> is_digit(#[trigger] text[i])
}

/// The number that a text of ASCII digits stands for, leading zeros allowed.
pub open spec fn decimal_value(text: Seq<char>) -> int
    decreases text.len(),
{
    if text.len() == 0 {
        0
    } else {
        decimal_value(text.drop_last()) * 10 + digit_value(text.last())
    }
}

/// A text without a leading plus sign.
pub open spec fn unsigned_digits(text: Seq<char>) -> Seq<char> {
    if text.len() > 0 && text[0] == '+' {
        text.drop_first()
    } else {
        text
    }
}

/// The number that a text stands for when read as unsigned: an optional
/// plus sign followed by at least one digit.
pub open spec fn unsigned_value(text: Seq<char>) -> Option<int> {
    let digits = unsigned_digits(text);
    if digits.len() > 0 && all_digits(digits) {
        Some(decimal_value(digits))
    } else {
        None
    }
}

/// The number that a text stands for when read as signed: an optional plus
/// or minus sign followed by at least one digit.
pub open spec fn signed_value(text: Seq<char>) -> Option<int> {
    if text.len() > 0 && text[0] == '-' {
        let digits = text.drop_first();
        if digits.len() > 0 && all_digits(digits) {
            Some(-decimal_value(digits))
        } else {
            None
        }
    } else {
        unsigned_value(text)
    }
}

/// The decimal text of a number: its digits, most significant first, without
/// padding.
pub open spec fn decimal_text(n: nat) -> Seq<char>
    decreases n,
{
    if n < 10 {
        seq![digit_char(n as int)]
    } else {
        decimal_text(n / 10).push(digit_char((n % 10) as int))
    }
}

/// The decimal text of a signed number: a minus sign before the digits of a
/// negative one.
pub open spec fn signed_text(n: int) -> Seq<char> {
    if n < 0 {
        seq!['-'] + decimal_text((-n) as nat)
    } else {
        decimal_text(n as nat)
    }
}

/// A text of digits stands for no less than any of its beginnings.
pub proof fn lemma_decimal_value_grows(text: Seq<char>, k: int)
    requires
        all_digits(text),
        0 <= k <= text.len(),
    ensures
        0 <= decimal_value(text.take(k)) <= decimal_value(text),
    decreases text.len() - k,
{
    if k == text.len() {
        assert(text.take(k) =~= text);
        lemma_decimal_value_nonnegative(text);
    } else {
        lemma_decimal_value_grows(text, k + 1);
        let longer = text.take(k + 1);
        assert(longer.drop_last() =~= text.take(k));
        assert(longer.last() == text[k]);
        assert(is_digit(text[k]));
        lemma_decimal_value_nonnegative(text.take(k));
    }
}

/// A text of digits stands for a number that is not negative.
pub proof fn lemma_decimal_value_nonnegative(text: Seq<char>)
    requires
        all_digits(text),
    ensures
        0 <= decimal_value(text),
    decreases text.len(),
{
    if text.len() > 0 {
        assert(is_digit(text[text.len() - 1]));
        lemma_decimal_value_nonnegative(text.drop_last());
    }
}

/// The decimal text of a number consists of digits, starts with a digit, and
/// stands for that number.
pub proof fn lemma_decimal_text_value(n: nat)
    ensures
        decimal_text(n).len() > 0,
        all_digits(decimal_text(n)),
        decimal_value(decimal_text(n)) == n,
    decreases n,
{
    if n < 10 {
        let text = decimal_text(n);
        assert(text.drop_last() =~= Seq::<char>::empty());
        assert(decimal_value(text.drop_last()) == 0);
    } else {
        lemma_decimal_text_value(n / 10);
        let text = decimal_text(n);
        assert(text.drop_last() =~= decimal_text(n / 10));
        assert(text.last() == digit_char((n % 10) as int));
    }
}

/// Reading what was written gives the number back: the decimal text of a
/// number, read as unsigned or as signed, stands for that number.
pub proof fn lemma_written_number_reads_back(n: int)
    ensures
        n >= 0 ==> unsigned_value(decimal_text(n as nat)) == Some(n),
        signed_value(signed_text(n)) == Some(n),
{
    if n >= 0 {
        lemma_decimal_text_value(n as nat);
        let text = decimal_text(n as nat);
        assert(is_digit(text[0]));
        assert(unsigned_digits(text) == text);
    } else {
        lemma_decimal_text_value((-n) as nat);
        let text = signed_text(n);
        assert(text.drop_first() =~= decimal_text((-n) as nat));
    }
}

/// A value, where it lies between `min` and `max`.
pub open spec fn within(value: Option<int>, min: int, max: int) -> Option<int> {
    match value {
        Some(v) => if min <= v <= max {
            Some(v)
        } else {
            None
        },
        None => None,
    }
}

/// Reads the digits of `s` after its first `start` characters, for a value
/// of at most `max`.
fn parse_digits(s: &str, start: usize, max: u64) -> (value: Option<u64>)
    requires
        start <= 1,
        start <= s@.len(),
    ensures
        value matches Some(v) ==> s@.skip(start as int).len() > 0 && all_digits(
            s@.skip(start as int),
        ) && decimal_value(s@.skip(start as int)) == v && v <= max,
        value is None ==> !(s@.skip(start as int).len() > 0 && all_digits(s@.skip(start as int))
            && decimal_value(s@.skip(start as int)) <= max),
{
    broadcast use vstd::string::axiom_spec_iter;

    let ghost digits = s@.skip(start as int);
    let mut value: u64 = 0;
    let mut at_sign: bool = start == 1;
    let mut any: bool = false;
    for c in it: s.chars()
        invariant
            it.seq() == s@,
            digits == s@.skip(start as int),
            start <= 1,
            start <= s@.len(),
            at_sign == (it.index() < start),
            any == (it.index() > start),
            it.index() >= start ==> all_digits(digits.take(it.index() - start)) && value
                == decimal_value(digits.take(it.index() - start)),
            it.index() < start ==> value == 0,
            value <= max,
    {
        if at_sign {
            at_sign = false;
            assert(digits.take(0) =~= Seq::<char>::empty());
        } else {
            let ghost k = it.index() - start;
            let code: u32 = c as u32;
            assert(digits[k] == c);
            if code < 48 || code > 57 {
                assert(!is_digit(digits[k]));
                return None;
            }
            let next: u128 = (value as u128) * 10 + ((code - 48) as u128);
            proof {
                let longer = digits.take(k + 1);
                assert(longer.drop_last() =~= digits.take(k));
                assert(longer.last() == c);
                assert(decimal_value(longer) == next);
                assert(all_digits(longer));
            }
            if next > max as u128 {
                proof {
                    if all_digits(digits) {
                        lemma_decimal_value_grows(digits, k + 1);
                    }
                }
                return None;
            }
            value = next as u64;
            any = true;
        }
    }
    proof {
        assert(digits.take(s@.len() - start) =~= digits);
    }
    if !any {
        return None;
    }
    Some(value)
}

/// The first character of a text, if it has one.
fn first_char(s: &str) -> (first: Option<char>)
    ensures
        first == (if s@.len() > 0 {
            Some(s@[0])
        } else {
            None::<char>
        }),
{
    broadcast use {vstd::string::axiom_spec_iter, vstd::string::next_postcondition};

    let mut chars = s.chars();
    chars.next()
}

/// Reads an unsigned number of at most `max`.
pub fn parse_unsigned(s: &str, max: u64) -> (value: Option<u64>)
    ensures
        value matches Some(v) ==> within(unsigned_value(s@), 0, max as int) == Some(v as int),
        value is None ==> within(unsigned_value(s@), 0, max as int) is None,
{
    let start: usize = match first_char(s) {
        Some(c) => if c == '+' {
            1
        } else {
            0
        },
        None => 0,
    };
    proof {
        if all_digits(unsigned_digits(s@)) {
            lemma_decimal_value_nonnegative(unsigned_digits(s@));
        }
        assert(start == 1 ==> s@.skip(1) =~= s@.drop_first());
        assert(start == 0 ==> s@.skip(0) =~= s@);
    }
    parse_digits(s, start, max)
}

/// Reads a signed number between `min` and `max`.
fn parse_signed(s: &str, min: i64, max: i64) -> (value: Option<i64>)
    requires
        i64::MIN < min <= 0 <= max,
    ensures
        value matches Some(v) ==> within(signed_value(s@), min as int, max as int) == Some(v as int),
        value is None ==> within(signed_value(s@), min as int, max as int) is None,
{
    let negative: bool = match first_char(s) {
        Some(c) => c == '-',
        None => false,
    };
    if negative {
        proof {
            assert(s@.skip(1) =~= s@.drop_first());
            if all_digits(s@.drop_first()) {
                lemma_decimal_value_nonnegative(s@.drop_first());
            }
        }
        match parse_digits(s, 1, (-min) as u64) {
            Some(v) => Some(-(v as i64)),
            None => None,
        }
    } else {
        proof {
            if all_digits(unsigned_digits(s@)) {
                lemma_decimal_value_nonnegative(unsigned_digits(s@));
            }
        }
        match parse_unsigned(s, max as u64) {
            Some(v) => Some(v as i64),
            None => None,
        }
    }
}

/// Reads a number that fits eight bits.
pub fn parse_u8(s: &str) -> (value: Option<u8>)
    ensures
        value matches Some(v) ==> within(unsigned_value(s@), 0, u8::MAX as int) == Some(v as int),
        value is None ==> within(unsigned_value(s@), 0, u8::MAX as int) is None,
{
    match parse_unsigned(s, 0xff) {
        Some(v) => Some(v as u8),
        None => None,
    }
}

/// Reads a number that fits sixteen bits.
pub fn parse_u16(s: &str) -> (value: Option<u16>)
    ensures
        value matches Some(v) ==> within(unsigned_value(s@), 0, u16::MAX as int) == Some(v as int),
        value is None ==> within(unsigned_value(s@), 0, u16::MAX as int) is None,
{
    match parse_unsigned(s, 0xffff) {
        Some(v) => Some(v as u16),
        None => None,
    }
}

/// Reads a number that fits thirty-two bits.
pub fn parse_u32(s: &str) -> (value: Option<u32>)
    ensures
        value matches Some(v) ==> within(unsigned_value(s@), 0, u32::MAX as int) == Some(v as int),
        value is None ==> within(unsigned_value(s@), 0, u32::MAX as int) is None,
{
    match parse_unsigned(s, 0xffff_ffff) {
        Some(v) => Some(v as u32),
        None => None,
    }
}

/// Reads a signed number that fits thirty-two bits.
pub fn parse_i32(s: &str) -> (value: Option<i32>)
    ensures
        value matches Some(v) ==> within(signed_value(s@), i32::MIN as int, i32::MAX as int)
            == Some(v as int),
        value is None ==> within(signed_value(s@), i32::MIN as int, i32::MAX as int) is None,
{
    match parse_signed(s, -0x8000_0000, 0x7fff_ffff) {
        Some(v) => Some(v as i32),
        None => None,
    }
}

/// The text of one digit.
fn digit_str(d: u8) -> (text: &'static str)
    requires
        d < 10,
    ensures
        text@ == seq![digit_char(d as int)],
{
    proof {
        reveal_strlit("0");
        reveal_strlit("1");
        reveal_strlit("2");
        reveal_strlit("3");
        reveal_strlit("4");
        reveal_strlit("5");
        reveal_strlit("6");
        reveal_strlit("7");
        reveal_strlit("8");
        reveal_strlit("9");
    }
    let text = match d {
        0 => "0",
        1 => "1",
        2 => "2",
        3 => "3",
        4 => "4",
        5 => "5",
        6 => "6",
        7 => "7",
        8 => "8",
        _ => "9",
    };
    assert(text@ =~= seq![digit_char(d as int)]);
    text
}

/// Appends the decimal text of `n` to `text`.
fn push_decimal(text: &mut String, n: u64)
    ensures
        final(text)@ == old(text)@ + decimal_text(n as nat),
    decreases n,
{
    if n >= 10 {
        push_decimal(text, n / 10);
    }
    text.append(digit_str((n % 10) as u8));
    assert(text@ =~= old(text)@ + decimal_text(n as nat));
}

/// Writes an unsigned number as decimal text.
pub fn format_unsigned(n: u64) -> (text: String)
    ensures
        text@ == decimal_text(n as nat),
{
    let mut text = String::new();
    push_decimal(&mut text, n);
    assert(text@ =~= decimal_text(n as nat));
    text
}

/// Writes a signed number as decimal text.
pub fn format_signed(n: i64) -> (text: String)
    ensures
        text@ == signed_text(n as int),
{
    let mut text = String::new();
    if n < 0 {
        proof {
            reveal_strlit("-");
        }
        text.append("-");
        let magnitude: u64 = if n == i64::MIN {
            0x8000_0000_0000_0000
        } else {
            (-n) as u64
        };
        push_decimal(&mut text, magnitude);
        assert(text@ =~= signed_text(n as int));
    } else {
        push_decimal(&mut text, n as u64);
        assert(text@ =~= signed_text(n as int));
    }
    text
}

/// The truth value that a text stands for: `true`, `false`, or none.
pub open spec fn bool_value(text: Seq<char>) -> Option<bool> {
    if text == "true"@ {
        Some(true)
    } else if text == "false"@ {
        Some(false)
    } else {
        None
    }
}

/// The text of a truth value.
pub open spec fn bool_text(value: bool) -> Seq<char> {
    if value {
        "true"@
    } else {
        "false"@
    }
}

/// Whether two texts are the same.
pub fn text_equals(a: &str, b: &str) -> (same: bool)
    ensures
        same == (a@ == b@),
{
    a.to_owned() == b.to_owned()
}

/// Reads a truth value.
pub fn parse_bool(s: &str) -> (value: Option<bool>)
    ensures
        value == bool_value(s@),
{
    if text_equals(s, "true") {
        Some(true)
    } else if text_equals(s, "false") {
        Some(false)
    } else {
        None
    }
}

/// Writes a truth value.
pub fn format_bool(value: bool) -> (text: String)
    ensures
        text@ == bool_text(value),
{
    if value {
        String::from_str("true")
    } else {
        String::from_str("false")
    }
}

/// Reading a written truth value gives it back.
pub proof fn lemma_written_bool_reads_back(value: bool)
    ensures
        bool_value(bool_text(value)) == Some(value),
{
    reveal_strlit("true");
    reveal_strlit("false");
    assert("true"@.len() == 4);
    assert("false"@.len() == 5);
}

} // verus!
