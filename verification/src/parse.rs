use vstd::prelude::*;
use vstd::string::StrSliceExecFns;
use vstd::utf8::{decode_utf8, valid_utf8};

verus! {

/// The text that `bytes` encode in UTF-8, or `None` when they are not valid
/// UTF-8.
pub open spec fn text_of_bytes(bytes: Seq<u8>) -> Option<Seq<char>> {
    if valid_utf8(bytes) {
        Some(decode_utf8(bytes))
    } else {
        None
    }
}

/// Calls `std::str::from_utf8`, whose documentation says that it returns the
/// text when `bytes` are valid UTF-8 and an error otherwise; this contract
/// claims exactly that, with the text as the characters that the bytes
/// encode.
#[verifier::external_body]
pub(crate) fn utf8_text(bytes: &[u8]) -> (text: Option<&str>)
    ensures
        text is Some <==> valid_utf8(bytes@),
        text matches Some(text) ==> text@ == decode_utf8(bytes@),
{
    std::str::from_utf8(bytes).ok()
}

/// Whether `c` is an ASCII decimal digit.
pub open spec fn is_ascii_digit(c: char) -> bool {
    '0' <= c <= '9'
}

/// Whether all characters of `text` are ASCII decimal digits.
pub open spec fn all_ascii_digits(text: Seq<char>) -> bool {
    forall|i: int| 0 <= i < text.len() ==> is_ascii_digit(#[trigger] text[i])
}

/// The value of the ASCII decimal digits `digits`.
pub open spec fn decimal_value(digits: Seq<char>) -> nat
    decreases digits.len(),
{
    if digits.len() == 0 {
        0
    } else {
        decimal_value(digits.drop_last()) * 10 + (digits.last() as int - '0' as int) as nat
    }
}

/// The `u8` that `text` writes in decimal, as `u8::from_str` reads it: an
/// optional `+` and then at least one ASCII digit, with a value below 256;
/// `None` for any other text.
pub open spec fn u8_of_text(text: Seq<char>) -> Option<u8> {
    let digits = if text.len() > 0 && text[0] == '+' {
        text.drop_first()
    } else {
        text
    };
    if digits.len() > 0 && all_ascii_digits(digits) && decimal_value(digits) < 256 {
        Some(decimal_value(digits) as u8)
    } else {
        None
    }
}

/// A decimal value only grows when digits are appended.
proof fn lemma_decimal_value_grows(digits: Seq<char>, k: int)
    requires
        0 <= k <= digits.len(),
        forall|i: int| 0 <= i < digits.len() ==> is_ascii_digit(#[trigger] digits[i]),
    ensures
        decimal_value(digits.subrange(0, k)) <= decimal_value(digits),
    decreases digits.len() - k,
{
    if k < digits.len() {
        let longer = digits.subrange(0, k + 1);
        assert(longer.drop_last() =~= digits.subrange(0, k));
        lemma_decimal_value_grows(digits, k + 1);
    } else {
        assert(digits.subrange(0, k) =~= digits);
    }
}

/// The `u8` that the characters `start..end` of `text` write in decimal (see
/// `u8_of_text`).
pub fn parse_u8_in(text: &str, start: usize, end: usize) -> (value: Option<u8>)
    requires
        start <= end <= text@.len(),
    ensures
        value == u8_of_text(text@.subrange(start as int, end as int)),
{
    let ghost whole = text@.subrange(start as int, end as int);
    let mut first = start;
    if start < end && text.get_char(start) == '+' {
        first = start + 1;
    }
    let ghost digits = text@.subrange(first as int, end as int);
    assert(digits =~= if whole.len() > 0 && whole[0] == '+' {
        whole.drop_first()
    } else {
        whole
    });
    if first == end {
        return None;
    }
    let mut value: u16 = 0;
    let mut i = first;
    while i < end
        invariant
            start <= first <= i <= end <= text@.len(),
            digits == text@.subrange(first as int, end as int),
            whole == text@.subrange(start as int, end as int),
            digits == if whole.len() > 0 && whole[0] == '+' {
                whole.drop_first()
            } else {
                whole
            },
            forall|j: int| 0 <= j < i - first ==> is_ascii_digit(#[trigger] digits[j]),
            value == decimal_value(digits.subrange(0, i - first)),
            value < 256,
        decreases end - i,
    {
        let c = text.get_char(i);
        assert(digits[i - first] == c);
        if !('0' <= c && c <= '9') {
            assert(!is_ascii_digit(digits[i - first]));
            assert(u8_of_text(whole) is None);
            return None;
        }
        let ghost prefix = digits.subrange(0, i + 1 - first);
        assert(prefix.drop_last() =~= digits.subrange(0, i - first));
        assert(prefix.last() == c);
        let next = value * 10 + ((c as u32) - ('0' as u32)) as u16;
        assert(decimal_value(prefix) == next);
        if next >= 256 {
            proof {
                if forall|j: int| 0 <= j < digits.len() ==> is_ascii_digit(#[trigger] digits[j]) {
                    lemma_decimal_value_grows(digits, i + 1 - first);
                }
            }
            assert(u8_of_text(whole) is None);
            return None;
        }
        value = next;
        i = i + 1;
    }
    assert(digits.subrange(0, end - first) =~= digits);
    Some(value as u8)
}

/// The `u8` that `text` writes in decimal (see `u8_of_text`).
pub fn parse_u8(text: &str) -> (value: Option<u8>)
    ensures
        value == u8_of_text(text@),
{
    let length = text.unicode_len();
    assert(text@.subrange(0, length as int) =~= text@);
    parse_u8_in(text, 0, length)
}

} // verus!
