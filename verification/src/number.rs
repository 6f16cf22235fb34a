//! Decimal numbers as they are written on the command line: an optional `+`
//! followed by one or more digits, nothing else.

use vstd::prelude::*;

verus! {

/// One of the ten decimal digits.
pub open spec fn is_digit(c: char) -> bool {
    '0' <= c <= '9'
}

/// The value of a decimal digit; zero for any other character.
pub open spec fn digit_value(c: char) -> nat {
    if is_digit(c) {
        (c as nat - '0' as nat) as nat
    } else {
        0
    }
}

/// The number that a sequence of digits denotes, the last digit counting
/// least. The empty sequence denotes zero.
pub open spec fn digits_value(digits: Seq<char>) -> nat
    decreases digits.len(),
{
    if digits.len() == 0 {
        0
    } else {
        10 * digits_value(digits.drop_last()) + digit_value(digits.last())
    }
}

/// The text without its leading `+`, if it has one.
pub open spec fn unsigned_part(text: Seq<char>) -> Seq<char> {
    if text.len() > 0 && text[0] == '+' {
        text.drop_first()
    } else {
        text
    }
}

/// The text is a decimal number: after an optional `+`, at least one
/// character, and only digits.
pub open spec fn is_number(text: Seq<char>) -> bool {
    let digits = unsigned_part(text);
    digits.len() > 0 && forall|i: int| 0 <= i < digits.len() ==> is_digit(#[trigger] digits[i])
}

/// The number that the text denotes, if it is a decimal number that does not
/// exceed `limit`.
pub open spec fn number_of(text: Seq<char>, limit: nat) -> Option<nat> {
    if is_number(text) && digits_value(unsigned_part(text)) <= limit {
        Some(digits_value(unsigned_part(text)))
    } else {
        None
    }
}

/// A sequence of digits denotes at least what any of its prefixes denotes.
pub proof fn lemma_prefix_value(digits: Seq<char>, shorter: int)
    requires
        0 <= shorter <= digits.len(),
    ensures
        digits_value(digits.take(shorter)) <= digits_value(digits),
    decreases digits.len(),
{
    if shorter == digits.len() {
        assert(digits.take(shorter) =~= digits);
    } else {
        lemma_prefix_value(digits.drop_last(), shorter);
        assert(digits.drop_last().take(shorter) =~= digits.take(shorter));
    }
}

/// Reads a decimal number of at most `limit` from `raw`. Anything else is
/// refused: an empty text, a sign without digits, a character that is no
/// digit, or a number beyond the limit.
pub fn parse_unsigned(raw: &str, limit: u64) -> (parsed: Option<u64>)
    ensures
        parsed is Some <==> number_of(raw@, limit as nat) is Some,
        parsed is Some ==> parsed->0 as nat == number_of(raw@, limit as nat)->0,
{
    broadcast use vstd::string::is_ascii_spec_bytes;

    let ghost text = raw@;
    let ghost digits = unsigned_part(text);
    if !raw.is_ascii() {
        proof {
            let bad = choose|i: int| 0 <= i < text.len() && !('\0' <= #[trigger] text[i] <= '\u{7f}');
            if bad == 0 {
                assert(digits == text);
                assert(!is_digit(digits[0]));
            } else if text[0] == '+' {
                assert(digits[bad - 1] == text[bad]);
                assert(!is_digit(digits[bad - 1]));
            } else {
                assert(!is_digit(digits[bad]));
            }
        }
        return None;
    }
    let len: usize = raw.unicode_len();
    let mut start: usize = 0;
    if len > 0 {
        let first: u8 = raw.get_ascii(0);
        if first == 43 {
            start = 1;
        }
    }
    proof {
        assert(text.len() > 0 ==> (text[0] == '+' <==> text[0] as u8 == 43));
        assert(digits =~= text.skip(start as int));
    }
    if start == len {
        return None;
    }
    let mut value: u64 = 0;
    let mut i: usize = start;
    while i < len
        invariant
            start <= i <= len,
            len == text.len(),
            text == raw@,
            raw.is_ascii(),
            digits == text.skip(start as int),
            digits == unsigned_part(text),
            forall|k: int| 0 <= k < i - start ==> is_digit(#[trigger] digits[k]),
            value == digits_value(digits.take(i - start)),
            value <= limit,
        decreases len - i,
    {
        let byte: u8 = raw.get_ascii(i);
        let ghost c = text[i as int];
        proof {
            assert(digits[i - start] == c);
            assert('\0' <= c <= '\u{7f}');
            assert(c as u8 == byte);
        }
        if byte < 48 || byte > 57 {
            proof {
                assert(!is_digit(digits[i - start]));
            }
            return None;
        }
        let digit: u64 = (byte - 48) as u64;
        proof {
            assert(is_digit(c));
            assert(digit == digit_value(c));
            let longer = digits.take(i - start + 1);
            assert(longer.drop_last() =~= digits.take(i - start));
            assert(longer.last() == c);
            assert(digits_value(longer) == 10 * value + digit);
            lemma_prefix_value(digits, i - start + 1);
        }
        if digit > limit || value > (limit - digit) / 10 {
            return None;
        }
        value = value * 10 + digit;
        i += 1;
    }
    proof {
        assert(digits.take(len - start) =~= digits);
    }
    Some(value)
}

} // verus!
