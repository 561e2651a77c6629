//! Amounts in the smallest currency unit, read from decimal text.

use vstd::prelude::*;
use vstd::string::is_ascii_spec_bytes;
use vstd::utf8::is_ascii_chars;

verus! {

/// Whether a character is one of the digits `0` to `9`.
pub open spec fn is_decimal_digit(c: char) -> bool {
    '0' <= c <= '9'
}

/// Whether every character of `text` is one of the digits `0` to `9`.
pub open spec fn all_decimal_digits(text: Seq<char>) -> bool {
    forall|i: int| 0 <= i < text.len() ==> is_decimal_digit(#[trigger] text[i])
}

/// The number that a run of digits writes in base ten; zero for the empty
/// run.
pub open spec fn decimal_value(digits: Seq<char>) -> nat
    decreases digits.len(),
{
    if digits.len() == 0 {
        0
    } else {
        decimal_value(digits.drop_last()) * 10 + (digits.last() as u32 - 0x30) as nat
    }
}

/// The digits of an amount: the text without one leading plus sign.
pub open spec fn amount_digits(text: Seq<char>) -> Seq<char> {
    if text.len() > 0 && text[0] == '+' {
        text.subrange(1, text.len() as int)
    } else {
        text
    }
}

/// The amount that a text writes, if it writes one. A text is an amount when
/// it is at least one digit, with at most one plus sign in front and nothing
/// else anywhere, and the number fits in 64 bits. Leading zeros are allowed;
/// a minus sign, a blank or an empty text is not.
pub open spec fn parsed_amount(text: Seq<char>) -> Option<u64> {
    let digits = amount_digits(text);
    if digits.len() > 0 && all_decimal_digits(digits) && decimal_value(digits) <= u64::MAX {
        Some(decimal_value(digits) as u64)
    } else {
        None
    }
}

/// The text of the error for something that is not an amount.
pub open spec fn invalid_amount_message() -> Seq<char> {
    "Invalid satoshi amount"@
}

/// A longer run of digits never writes a smaller number than its beginning.
proof fn lemma_decimal_value_grows(digits: Seq<char>, k: int)
    requires
        all_decimal_digits(digits),
        0 <= k <= digits.len(),
    ensures
        decimal_value(digits.take(k)) <= decimal_value(digits),
    decreases digits.len() - k,
{
    if k == digits.len() {
        assert(digits.take(k) =~= digits);
    } else {
        let longer = digits.take(k + 1);
        assert(longer.drop_last() =~= digits.take(k));
        assert(is_decimal_digit(digits[k]));
        assert(longer.last() == digits[k]);
        lemma_decimal_value_grows(digits, k + 1);
    }
}

/// A text with a character outside ASCII is no amount.
proof fn lemma_amounts_are_ascii(text: Seq<char>)
    requires
        !is_ascii_chars(text),
    ensures
        parsed_amount(text) is None,
{
    let i = choose|i: int| 0 <= i < text.len() && !('\0' <= #[trigger] text[i] <= '\u{7f}');
    let digits = amount_digits(text);
    if text[0] == '+' {
        assert(i > 0);
        assert(digits[i - 1] == text[i]);
        assert(!is_decimal_digit(digits[i - 1]));
    } else {
        assert(!is_decimal_digit(digits[i]));
    }
}

/// Reads the number that the characters from `start` on write in base ten.
/// `bytes` holds the characters of the ASCII text `text`, one byte each.
fn read_decimal(bytes: &[u8], start: usize, Ghost(text): Ghost<Seq<char>>) -> (r: Option<u64>)
    requires
        start <= text.len(),
        bytes@.len() == text.len(),
        forall|i: int| 0 <= i < text.len() ==> bytes@[i] == #[trigger] text[i] as u8,
        is_ascii_chars(text),
    ensures
        ({
            let digits = text.subrange(start as int, text.len() as int);
            match r {
                Some(v) => all_decimal_digits(digits) && v == decimal_value(digits),
                None => !all_decimal_digits(digits) || decimal_value(digits) > u64::MAX,
            }
        }),
{
    let n = bytes.len();
    let ghost digits = text.subrange(start as int, n as int);
    let mut value: u64 = 0;
    let mut i: usize = start;
    while i < n
        invariant
            n == bytes@.len(),
            n == text.len(),
            start <= i <= n,
            digits == text.subrange(start as int, n as int),
            forall|j: int| 0 <= j < text.len() ==> bytes@[j] == #[trigger] text[j] as u8,
            is_ascii_chars(text),
            all_decimal_digits(digits.take(i - start)),
            value == decimal_value(digits.take(i - start)),
        decreases n - i,
    {
        let byte = bytes[i];
        assert(digits[i - start] == text[i as int]);
        assert(byte == text[i as int] as u8);
        assert('\0' <= text[i as int] <= '\u{7f}');
        if byte < 0x30 || byte > 0x39 {
            assert(!is_decimal_digit(digits[i - start]));
            return None;
        }
        let digit: u64 = (byte - 0x30) as u64;
        proof {
            let longer = digits.take(i - start + 1);
            assert(longer.drop_last() =~= digits.take(i - start));
            assert(longer.last() == text[i as int]);
            assert(decimal_value(longer) == value * 10 + digit);
            assert(all_decimal_digits(longer)) by {
                assert forall|j: int| 0 <= j < longer.len() implies is_decimal_digit(
                    #[trigger] longer[j],
                ) by {
                    if j < i - start {
                        assert(longer[j] == digits.take(i - start)[j]);
                    }
                }
            }
            if all_decimal_digits(digits) {
                lemma_decimal_value_grows(digits, i - start + 1);
            }
        }
        if value > (u64::MAX - digit) / 10 {
            return None;
        }
        value = value * 10 + digit;
        i += 1;
    }
    assert(digits.take(i - start) =~= digits);
    Some(value)
}

/// Reads an amount in the smallest currency unit from decimal text. The text
/// is accepted exactly when it is one or more of the digits `0` to `9`,
/// optionally behind a single plus sign, and the number fits in 64 bits;
/// anything else (a minus sign, a letter, a blank, an empty text, a number
/// too large) is refused with one fixed message.
pub fn parse_satoshis(input: &str) -> (r: Result<u64, String>)
    ensures
        match r {
            Ok(amount) => parsed_amount(input@) == Some(amount),
            Err(msg) => parsed_amount(input@) is None && msg@ == invalid_amount_message(),
        },
{
    if !input.is_ascii() {
        proof {
            lemma_amounts_are_ascii(input@);
        }
        return Err(String::from_str("Invalid satoshi amount"));
    }
    let bytes = input.as_bytes();
    proof {
        is_ascii_spec_bytes(input);
    }
    let n = bytes.len();
    let start: usize = if n > 0 && bytes[0] == 0x2b {
        1
    } else {
        0
    };
    assert(n > 0 ==> '\0' <= input@[0] <= '\u{7f}');
    assert(amount_digits(input@) =~= input@.subrange(start as int, n as int));
    if start == n {
        return Err(String::from_str("Invalid satoshi amount"));
    }
    match read_decimal(bytes, start, Ghost(input@)) {
        Some(amount) => Ok(amount),
        None => Err(String::from_str("Invalid satoshi amount")),
    }
}

} // verus!
