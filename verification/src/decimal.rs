use vstd::prelude::*;
use vstd::utf8::*;

use crate::text::{lemma_encode_utf8_append, lemma_encode_utf8_empty, lemma_first_byte};

verus! {

/* Writing numbers */

/// The character of the decimal digit `d` (for `d < 10`).
pub open spec fn digit_char(d: nat) -> char {
    (d + 0x30) as char
}

/// `n` written in decimal, as `format!("{n}")` writes it: no sign and no leading zero.
pub open spec fn decimal(n: nat) -> Seq<char>
    decreases n,
{
    if n < 10 {
        seq![digit_char(n)]
    } else {
        decimal(n / 10).push(digit_char(n % 10))
    }
}

/* Reading numbers, as `u32::from_str` reads them */

/// Whether `b` is the byte of a decimal digit.
pub open spec fn is_digit_byte(b: u8) -> bool {
    0x30 <= b <= 0x39
}

/// The number that a run of decimal digit bytes denotes.
pub open spec fn digits_value(digits: Seq<u8>) -> nat
    decreases digits.len(),
{
    if digits.len() == 0 {
        0
    } else {
        digits_value(digits.drop_last()) * 10 + (digits.last() - 0x30) as nat
    }
}

/// The digits of a number that `u32::from_str` reads: the text without one leading `+`,
/// where something follows the `+`.
pub open spec fn unsigned_digits(text: Seq<u8>) -> Seq<u8> {
    if text.len() > 1 && text[0] == 0x2b {
        text.drop_first()
    } else {
        text
    }
}

/// What `u32::from_str` gives for the text with bytes `text`: the number, when the text is one
/// optional `+` followed by at least one decimal digit and nothing else, and the number fits
/// in a `u32`.
pub open spec fn parse_u32(text: Seq<u8>) -> Option<u32> {
    let digits = unsigned_digits(text);
    if digits.len() > 0 && (forall|i: int| 0 <= i < digits.len() ==> is_digit_byte(digits[i]))
        && digits_value(digits) <= u32::MAX {
        Some(digits_value(digits) as u32)
    } else {
        None
    }
}

/* Facts */

/// The UTF-8 encoding of a single ASCII character is its code.
pub proof fn lemma_encode_ascii_char(c: char)
    requires
        (c as u32) < 0x80,
    ensures
        encode_utf8(seq![c]).len() == 1,
        encode_utf8(seq![c])[0] as u32 == c as u32,
{
    lemma_first_byte(seq![c]);
    assert(seq![c].drop_first() =~= Seq::<char>::empty());
    lemma_encode_utf8_empty(Seq::<char>::empty());
}

/// A decimal is a non-empty run of digit bytes that denotes the number.
pub proof fn lemma_decimal_digits(n: nat)
    ensures
        encode_utf8(decimal(n)).len() > 0,
        forall|i: int|
            0 <= i < encode_utf8(decimal(n)).len() ==> is_digit_byte(
                #[trigger] encode_utf8(decimal(n))[i],
            ),
        digits_value(encode_utf8(decimal(n))) == n,
        !decimal(n).contains('.'),
        !decimal(n).contains(':'),
    decreases n,
{
    let d = digit_char(n % 10);
    lemma_encode_ascii_char(d);
    assert(d as u32 == n % 10 + 0x30);
    if n < 10 {
        assert(n % 10 == n);
        let e = encode_utf8(decimal(n));
        assert(e.drop_last() =~= Seq::<u8>::empty());
        assert(e.last() as u32 == n + 0x30);
        assert(digits_value(e) == digits_value(e.drop_last()) * 10 + (e.last() - 0x30) as nat);
    } else {
        lemma_decimal_digits(n / 10);
        let prev = decimal(n / 10);
        lemma_encode_utf8_append(prev, seq![d]);
        assert(decimal(n) =~= prev + seq![d]);
        let e = encode_utf8(decimal(n));
        assert(e.drop_last() =~= encode_utf8(prev));
        assert(e.last() as u32 == d as u32);
        assert(digits_value(e) == digits_value(e.drop_last()) * 10 + (e.last() - 0x30) as nat);
        assert(n == (n / 10) * 10 + n % 10);
        assert(!decimal(n).contains('.')) by {
            if decimal(n).contains('.') {
                let i = choose|i: int| 0 <= i < decimal(n).len() && decimal(n)[i] == '.';
                if i < prev.len() {
                    assert(prev[i] == '.');
                }
            }
        }
        assert(!decimal(n).contains(':')) by {
            if decimal(n).contains(':') {
                let i = choose|i: int| 0 <= i < decimal(n).len() && decimal(n)[i] == ':';
                if i < prev.len() {
                    assert(prev[i] == ':');
                }
            }
        }
    }
}

/// A decimal has no leading zero: it is one digit, or it begins with a digit other than `0`.
pub proof fn lemma_decimal_no_leading_zero(n: nat)
    ensures
        decimal(n).len() >= 1,
        decimal(n).len() == 1 || decimal(n)[0] != '0',
        n > 0 ==> decimal(n)[0] != '0',
    decreases n,
{
    if n < 10 {
        let d = digit_char(n);
        lemma_encode_ascii_char(d);
        assert(d as u32 == n + 0x30);
        assert(decimal(n)[0] == d);
    } else {
        lemma_decimal_no_leading_zero(n / 10);
        assert(decimal(n)[0] == decimal(n / 10)[0]);
    }
}

/// Reading back a number written in decimal gives the number.
pub proof fn lemma_parse_decimal(n: u32)
    ensures
        parse_u32(encode_utf8(decimal(n as nat))) == Some(n),
{
    lemma_decimal_digits(n as nat);
    let e = encode_utf8(decimal(n as nat));
    assert(is_digit_byte(e[0]));
    assert(unsigned_digits(e) == e);
}

/// A prefix of a run of digits denotes at most what the whole run denotes.
proof fn lemma_digits_prefix(digits: Seq<u8>, k: int)
    requires
        0 <= k <= digits.len(),
        forall|i: int| 0 <= i < digits.len() ==> is_digit_byte(#[trigger] digits[i]),
    ensures
        digits_value(digits.take(k)) <= digits_value(digits),
    decreases digits.len() - k,
{
    if k == digits.len() {
        assert(digits.take(k) =~= digits);
    } else {
        lemma_digits_prefix(digits, k + 1);
        assert(digits.take(k + 1).drop_last() =~= digits.take(k));
    }
}

/* Operations */

/// Appends the decimal digits of `n` to `out`.
pub fn push_decimal(out: &mut Vec<u8>, n: u32)
    ensures
        final(out)@ == old(out)@ + encode_utf8(decimal(n as nat)),
    decreases n,
{
    let d: u32 = n % 10;
    if n >= 10 {
        push_decimal(out, n / 10);
    }
    let digit: u8 = (d as u8) + 0x30;
    out.push(digit);
    proof {
        let c = digit_char(d as nat);
        lemma_encode_ascii_char(c);
        assert(encode_utf8(seq![c]) =~= seq![digit]);
        if n >= 10 {
            lemma_encode_utf8_append(decimal((n / 10) as nat), seq![c]);
            assert(decimal(n as nat) =~= decimal((n / 10) as nat) + seq![c]);
        } else {
            assert(decimal(n as nat) =~= seq![c]);
        }
        assert(final(out)@ =~= old(out)@ + encode_utf8(decimal(n as nat)));
    }
}

/// The number that `text` denotes, read as `u32::from_str` reads it.
pub fn parse_u32_bytes(text: &[u8]) -> (r: Option<u32>)
    ensures
        r == parse_u32(text@),
{
    let n: usize = text.len();
    if n == 0 {
        return None;
    }
    let start: usize = if n > 1 && text[0] == 0x2b {
        1
    } else {
        0
    };
    let ghost digits = unsigned_digits(text@);
    assert(digits =~= text@.subrange(start as int, n as int));
    let mut value: u64 = 0;
    let mut i: usize = start;
    while i < n
        invariant
            start <= i <= n,
            n == text@.len(),
            start < n,
            digits == text@.subrange(start as int, n as int),
            digits == unsigned_digits(text@),
            forall|j: int| start <= j < i ==> is_digit_byte(#[trigger] text@[j]),
            value == digits_value(text@.subrange(start as int, i as int)),
            value <= u32::MAX,
        decreases n - i,
    {
        let c: u8 = text[i];
        if c < 0x30 || c > 0x39 {
            assert(digits[i - start] == c);
            assert(!is_digit_byte(digits[i - start]));
            return None;
        }
        value = value * 10 + (c - 0x30) as u64;
        assert(text@.subrange(start as int, i + 1).drop_last() =~= text@.subrange(
            start as int,
            i as int,
        ));
        assert(text@.subrange(start as int, i + 1).last() == c);
        assert(value == digits_value(text@.subrange(start as int, i + 1)));
        if value > u32::MAX as u64 {
            proof {
                if forall|j: int| 0 <= j < digits.len() ==> is_digit_byte(#[trigger] digits[j]) {
                    lemma_digits_prefix(digits, i + 1 - start);
                    assert(digits.take(i + 1 - start) =~= text@.subrange(start as int, i + 1));
                }
            }
            return None;
        }
        i = i + 1;
    }
    assert(text@.subrange(start as int, n as int) == digits);
    assert(forall|j: int| 0 <= j < digits.len() ==> is_digit_byte(#[trigger] digits[j])) by {
        assert forall|j: int| 0 <= j < digits.len() implies is_digit_byte(#[trigger] digits[j]) by {
            assert(digits[j] == text@[j + start]);
        }
    }
    Some(value as u32)
}

} // verus!
