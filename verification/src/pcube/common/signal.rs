//! The signal that travels over the channel: the decimal ASCII text of a
//! payload's byte length.

use vstd::prelude::*;
use vstd::string::StringExecFns;
use vstd::utf8::encode_utf8;
use vstd::utf8::is_ascii_chars;
use vstd::utf8::is_ascii_chars_encode_utf8;

verus! {

/// The character of the decimal digit `d`.
pub open spec fn digit_char(d: nat) -> char
    recommends
        d < 10,
{
    (d + 48) as u8 as char
}

/// The decimal text of `n`: its digits, the most significant first, with no
/// sign and no leading zero.
pub open spec fn decimal_text(n: nat) -> Seq<char>
    decreases n,
{
    if n < 10 {
        seq![digit_char(n)]
    } else {
        decimal_text(n / 10).push(digit_char(n % 10))
    }
}

/// Whether the byte is an ASCII decimal digit.
pub open spec fn is_digit(byte: u8) -> bool {
    48 <= byte <= 57
}

/// Whether every byte is an ASCII decimal digit.
pub open spec fn all_digits(bytes: Seq<u8>) -> bool {
    forall|i: int| 0 <= i < bytes.len() ==> is_digit(#[trigger] bytes[i])
}

/// The number that a run of decimal digits stands for.
pub open spec fn digits_value(digits: Seq<u8>) -> nat
    decreases digits.len(),
{
    if digits.len() == 0 {
        0
    } else {
        (digits_value(digits.drop_last()) * 10 + (digits.last() - 48)) as nat
    }
}

/// The digits of a signal: its bytes without the plus sign that may lead them.
pub open spec fn signal_digits(bytes: Seq<u8>) -> Seq<u8> {
    if bytes.len() > 0 && bytes[0] == 43 {
        bytes.drop_first()
    } else {
        bytes
    }
}

/// The length that a signal carries: the text is one or more ASCII decimal
/// digits, which a plus sign may lead, and their value fits a `usize`. Any
/// other text carries none.
pub open spec fn signalled_length(text: Seq<char>) -> Option<usize> {
    let digits = signal_digits(encode_utf8(text));
    if digits.len() > 0 && all_digits(digits) && digits_value(digits) <= usize::MAX {
        Some(digits_value(digits) as usize)
    } else {
        None
    }
}

proof fn lemma_decimal_text_ascii(n: nat)
    ensures
        is_ascii_chars(decimal_text(n)),
        decimal_text(n).len() > 0,
        forall|i: int|
            0 <= i < decimal_text(n).len() ==> is_digit(#[trigger] decimal_text(n)[i] as u8),
        digits_value(decimal_text(n).map_values(|c: char| c as u8)) == n,
    decreases n,
{
    let text = decimal_text(n);
    let bytes = text.map_values(|c: char| c as u8);
    if n < 10 {
        assert(bytes.drop_last() =~= Seq::<u8>::empty());
        assert(digits_value(bytes.drop_last()) == 0);
    } else {
        lemma_decimal_text_ascii(n / 10);
        let head = decimal_text(n / 10);
        assert(bytes.drop_last() =~= head.map_values(|c: char| c as u8));
    }
}

/// A length that was written as a signal is read back from it.
pub proof fn lemma_signal_round_trip(len: usize)
    ensures
        signalled_length(decimal_text(len as nat)) == Some(len),
{
    let text = decimal_text(len as nat);
    lemma_decimal_text_ascii(len as nat);
    is_ascii_chars_encode_utf8(text);
    assert(encode_utf8(text) =~= text.map_values(|c: char| c as u8));
}

proof fn lemma_digits_value_grows(digits: Seq<u8>, k: int)
    requires
        all_digits(digits),
        0 <= k <= digits.len(),
    ensures
        digits_value(digits.subrange(0, k)) <= digits_value(digits),
    decreases digits.len() - k,
{
    if k == digits.len() {
        assert(digits.subrange(0, k) =~= digits);
    } else {
        let next = digits.subrange(0, k + 1);
        assert(next.drop_last() =~= digits.subrange(0, k));
        assert(is_digit(digits[k]));
        lemma_digits_value_grows(digits, k + 1);
    }
}

fn digit_text(d: usize) -> (text: &'static str)
    requires
        d < 10,
    ensures
        text@ == seq![digit_char(d as nat)],
{
    proof {
        reveal_strlit("0");
        reveal_strlit("1");
        reveal_strlit("2");
        reveal_strlit("3");
        reveal_strlit("4");
        reveal_strlit("5");
        reveal_strlit("6");
        reveal_strlit("7");
        reveal_strlit("8");
        reveal_strlit("9");
    }
    let text = if d == 0 {
        "0"
    } else if d == 1 {
        "1"
    } else if d == 2 {
        "2"
    } else if d == 3 {
        "3"
    } else if d == 4 {
        "4"
    } else if d == 5 {
        "5"
    } else if d == 6 {
        "6"
    } else if d == 7 {
        "7"
    } else if d == 8 {
        "8"
    } else {
        "9"
    };
    assert(text@ =~= seq![digit_char(d as nat)]);
    text
}

/// Writes a length as the text of a signal.
pub fn length_text(len: usize) -> (text: String)
    ensures
        text@ == decimal_text(len as nat),
    decreases len,
{
    if len < 10 {
        String::from_str(digit_text(len))
    } else {
        let mut text = length_text(len / 10);
        text.append(digit_text(len % 10));
        assert(text@ =~= decimal_text(len as nat));
        text
    }
}

/// Reads the length that a signal carries, if it carries one.
pub fn parse_length(text: &str) -> (len: Option<usize>)
    ensures
        len == signalled_length(text@),
{
    let bytes = text.as_bytes();
    let end: usize = bytes.len();
    let start: usize = if end > 0 && bytes[0] == 43 {
        1
    } else {
        0
    };
    let ghost digits = signal_digits(bytes@);
    assert(digits =~= bytes@.subrange(start as int, end as int));
    if start == end {
        return None;
    }
    let mut value: usize = 0;
    let mut i: usize = start;
    assert(digits.subrange(0, 0) =~= Seq::<u8>::empty());
    while i < end
        invariant
            start <= i <= end,
            end == bytes@.len(),
            digits == bytes@.subrange(start as int, end as int),
            digits == signal_digits(encode_utf8(text@)),
            all_digits(digits.subrange(0, i - start)),
            value == digits_value(digits.subrange(0, i - start)),
        decreases end - i,
    {
        let byte: u8 = bytes[i];
        let ghost seen = digits.subrange(0, i - start);
        let ghost more = digits.subrange(0, i - start + 1);
        assert(more.drop_last() =~= seen);
        assert(more.last() == byte);
        if byte < 48 || byte > 57 {
            assert(!is_digit(digits[i - start]));
            return None;
        }
        let d: usize = (byte - 48) as usize;
        if value > (usize::MAX - d) / 10 {
            proof {
                assert(digits_value(more) == value * 10 + d);
                if all_digits(digits) {
                    lemma_digits_value_grows(digits, i - start + 1);
                }
            }
            return None;
        }
        value = value * 10 + d;
        i = i + 1;
        assert forall|j: int| 0 <= j < more.len() implies is_digit(#[trigger] more[j]) by {
            if j < seen.len() {
                assert(more[j] == seen[j]);
            }
        }
    }
    assert(digits.subrange(0, i - start) =~= digits);
    Some(value)
}

} // verus!
