use vstd::prelude::*;
use vstd::utf8::*;

use hex::FromHex;

use crate::text::{lemma_encode_utf8_append, lemma_encode_utf8_empty, lemma_first_byte};

verus! {

/* Hexadecimal text, as the `hex` crate writes and reads it */

/// The lower-case hexadecimal digit for `nibble < 16`.
pub open spec fn hex_digit(nibble: u8) -> char {
    if nibble < 10 {
        (nibble + 0x30) as char
    } else {
        (nibble + 0x57) as char
    }
}

/// `bytes` in lower-case hexadecimal: two digits per byte, the high half first.
pub open spec fn hex_encode(bytes: Seq<u8>) -> Seq<char>
    decreases bytes.len(),
{
    if bytes.len() == 0 {
        Seq::empty()
    } else {
        seq![hex_digit(bytes[0] >> 4), hex_digit(bytes[0] & 0x0f)] + hex_encode(bytes.drop_first())
    }
}

/// The value of a hexadecimal digit byte, in either case.
pub open spec fn hex_value(c: u8) -> Option<u8> {
    if 0x30 <= c <= 0x39 {
        Some((c - 0x30) as u8)
    } else if 0x61 <= c <= 0x66 {
        Some((c - 0x57) as u8)
    } else if 0x41 <= c <= 0x46 {
        Some((c - 0x37) as u8)
    } else {
        None
    }
}

/// The bytes that hexadecimal text denotes, two digits to a byte; `None` when the text has an
/// odd length or holds a byte that is not a hexadecimal digit.
pub open spec fn hex_decode(text: Seq<u8>) -> Option<Seq<u8>>
    decreases text.len(),
{
    if text.len() == 0 {
        Some(Seq::empty())
    } else if text.len() == 1 {
        None
    } else {
        match (hex_value(text[0]), hex_value(text[1]), hex_decode(text.skip(2))) {
            (Some(high), Some(low), Some(rest)) => Some(seq![(high * 16 + low) as u8] + rest),
            _ => None,
        }
    }
}

/* Calls into the `hex` crate */

#[verifier::external_type_specification]
#[verifier::external_body]
pub struct ExFromHexError(hex::FromHexError);

/// Calls `hex::encode`, which writes each byte as two lower-case hexadecimal digits, the high
/// half first; the contract claims exactly that.
#[verifier::external_body]
pub(crate) fn encode_hex(data: &[u8]) -> (res: String)
    ensures
        res@ == hex_encode(data@),
{
    hex::encode(data)
}

/// Calls `<Vec<u8> as hex::FromHex>::from_hex` on the bytes of `text`. The contract claims that
/// it succeeds exactly when the bytes have an even length and are all hexadecimal digits of
/// either case, and then gives the decoded bytes. Which `FromHexError` comes on failure is not
/// stated.
#[verifier::external_body]
pub(crate) fn decode_hex(text: &str) -> (res: Result<Vec<u8>, hex::FromHexError>)
    ensures
        match res {
            Ok(bytes) => hex_decode(encode_utf8(text@)) == Some(bytes@),
            Err(_) => hex_decode(encode_utf8(text@)) is None,
        },
{
    Vec::<u8>::from_hex(text)
}

/* Facts */

/// Every digit of a hex encoding is ASCII, and its byte is read back as the nibble.
proof fn lemma_hex_digit(nibble: u8)
    requires
        nibble < 16,
    ensures
        (hex_digit(nibble) as u32) < 0x80,
        forall|b: u8| b as u32 == hex_digit(nibble) as u32 ==> hex_value(b) == Some(nibble),
{
}

/// The UTF-8 bytes of a hex encoding, read as hexadecimal, give back the encoded bytes.
pub proof fn lemma_hex_roundtrip(bytes: Seq<u8>)
    ensures
        hex_decode(encode_utf8(hex_encode(bytes))) == Some(bytes),
    decreases bytes.len(),
{
    if bytes.len() == 0 {
        lemma_encode_utf8_empty(hex_encode(bytes));
    } else {
        let b: u8 = bytes[0];
        let high: u8 = b >> 4;
        let low: u8 = b & 0x0f;
        assert(high < 16 && low < 16 && (high * 16 + low) as u8 == b) by (bit_vector)
            requires
                high == b >> 4,
                low == b & 0x0f,
        ;
        lemma_hex_digit(high);
        lemma_hex_digit(low);
        let pair = seq![hex_digit(high), hex_digit(low)];
        let tail = hex_encode(bytes.drop_first());
        lemma_encode_utf8_append(pair, tail);
        lemma_first_byte(pair);
        lemma_first_byte(pair.drop_first());
        lemma_encode_utf8_empty(pair.drop_first().drop_first());
        let text = encode_utf8(hex_encode(bytes));
        assert(hex_encode(bytes) == pair + tail);
        let ep = encode_utf8(pair);
        assert(ep.len() == 2);
        assert(text.skip(2) =~= encode_utf8(tail));
        assert(hex_value(text[0]) == Some(high));
        assert(hex_value(text[1]) == Some(low));
        lemma_hex_roundtrip(bytes.drop_first());
        assert(seq![b] + bytes.drop_first() =~= bytes);
    }
}

/// A hex encoding consists of lower-case hexadecimal digits.
pub proof fn lemma_hex_encode_lower(bytes: Seq<u8>)
    ensures
        forall|i: int|
            0 <= i < hex_encode(bytes).len() ==> (0x30 <= (#[trigger] hex_encode(bytes)[i] as u32)
                && (hex_encode(bytes)[i] as u32) <= 0x39) || (0x61 <= (hex_encode(bytes)[i] as u32)
                && (hex_encode(bytes)[i] as u32) <= 0x66),
    decreases bytes.len(),
{
    if bytes.len() > 0 {
        let b: u8 = bytes[0];
        assert(b >> 4 < 16 && b & 0x0f < 16) by (bit_vector);
        lemma_hex_encode_lower(bytes.drop_first());
        let s = hex_encode(bytes);
        let t = hex_encode(bytes.drop_first());
        assert forall|i: int| 0 <= i < s.len() implies (0x30 <= (#[trigger] s[i] as u32) && (s[i]
            as u32) <= 0x39) || (0x61 <= (s[i] as u32) && (s[i] as u32) <= 0x66) by {
            if i >= 2 {
                assert(s[i] == t[i - 2]);
            }
        }
    }
}

} // verus!
