//! Byte strings written as hexadecimal digits.

use vstd::prelude::*;
use vstd::utf8::encode_utf8;

use crate::number::{decimal, decimal_string, hex_digit};
use crate::text::chars_of;

verus! {

/// Whether two hexadecimal digits stand at position `i` of `c`.
pub open spec fn is_pair_at(c: Seq<char>, i: int) -> bool {
    0 <= i && i + 1 < c.len() && hex_digit(c[i]) is Some && hex_digit(c[i + 1]) is Some
}

/// The byte that the two hexadecimal digits at position `i` of `c` stand for.
pub open spec fn pair_value(c: Seq<char>, i: int) -> u8 {
    (hex_digit(c[i])->0 * 16 + hex_digit(c[i + 1])->0) as u8
}

/// The bytes that the pairs of digits in `c` from position `i` on stand for, or
/// the position of the first pair that stands for none.
pub open spec fn decoded_pairs(c: Seq<char>, i: int) -> Result<Seq<u8>, int>
    decreases c.len() - i,
{
    if i >= c.len() {
        Ok(Seq::empty())
    } else if is_pair_at(c, i) {
        match decoded_pairs(c, i + 2) {
            Ok(rest) => Ok(seq![pair_value(c, i)] + rest),
            Err(position) => Err(position),
        }
    } else {
        Err(i)
    }
}

/// The bytes that `hex` stands for, or the message with which it is refused. A text
/// that takes an even number of bytes in UTF-8 is refused at the first two bytes that
/// are not digits; up to there every character takes one byte.
pub open spec fn hex_meaning(hex: Seq<char>) -> Result<Seq<u8>, Seq<char>> {
    if encode_utf8(hex).len() % 2 != 0 {
        Err("odd-length hex string"@)
    } else {
        match decoded_pairs(hex, 0) {
            Ok(bytes) => Ok(bytes),
            Err(i) => Err(
                "invalid hex at position "@ + decimal(i as nat)
                    + ": invalid digit found in string"@,
            ),
        }
    }
}

fn digit_value(c: char) -> (r: Option<u8>)
    ensures
        match r {
            Some(v) => hex_digit(c) == Some(v as int) && v < 16,
            None => hex_digit(c) is None,
        },
{
    if '0' <= c && c <= '9' {
        Some(c as u8 - 48)
    } else if 'a' <= c && c <= 'f' {
        Some(c as u8 - 87)
    } else if 'A' <= c && c <= 'F' {
        Some(c as u8 - 55)
    } else {
        None
    }
}

fn pair(chars: &Vec<char>, i: usize) -> (r: Option<u8>)
    requires
        i < chars@.len(),
    ensures
        match r {
            Some(v) => is_pair_at(chars@, i as int) && v == pair_value(chars@, i as int),
            None => !is_pair_at(chars@, i as int),
        },
{
    if chars.len() - i < 2 {
        return None;
    }
    match (digit_value(chars[i]), digit_value(chars[i + 1])) {
        (Some(high), Some(low)) => Some(high * 16 + low),
        _ => None,
    }
}

/// Decode a hex string into bytes.
pub fn decode_hex(hex: &str) -> (r: Result<Vec<u8>, String>)
    ensures
        match r {
            Ok(bytes) => hex_meaning(hex@) == Ok::<Seq<u8>, Seq<char>>(bytes@),
            Err(e) => hex_meaning(hex@) == Err::<Seq<u8>, Seq<char>>(e@),
        },
{
    if hex.as_bytes().len() % 2 != 0 {
        return Err("odd-length hex string".to_owned());
    }
    let chars = chars_of(hex);
    let mut bytes: Vec<u8> = Vec::new();
    let mut i: usize = 0;
    while i < chars.len()
        invariant
            chars@ == hex@,
            i <= chars@.len(),
            encode_utf8(hex@).len() % 2 == 0,
            match decoded_pairs(hex@, i as int) {
                Ok(rest) => decoded_pairs(hex@, 0) == Ok::<Seq<u8>, int>(bytes@ + rest),
                Err(p) => decoded_pairs(hex@, 0) == Err::<Seq<u8>, int>(p),
            },
        decreases chars.len() - i,
    {
        match pair(&chars, i) {
            Some(byte) => {
                proof {
                    if let Ok(rest) = decoded_pairs(hex@, i + 2) {
                        assert(bytes@ + (seq![byte] + rest) =~= bytes@.push(byte) + rest);
                    }
                }
                bytes.push(byte);
            },
            None => {
                let mut message = "invalid hex at position ".to_owned();
                message.append(decimal_string(i as u64).as_str());
                message.append(": invalid digit found in string");
                return Err(message);
            },
        }
        i = i + 2;
    }
    assert(bytes@ + Seq::<u8>::empty() =~= bytes@);
    Ok(bytes)
}

/// The hexadecimal digit, in small letters, of a number below sixteen.
pub open spec fn hex_char(d: int) -> char {
    if d < 10 {
        (48 + d) as char
    } else {
        (87 + d) as char
    }
}

/// `bytes` written as pairs of hexadecimal digits in small letters.
pub open spec fn hex_encoded(bytes: Seq<u8>) -> Seq<char> {
    Seq::new(
        2 * bytes.len(),
        |i: int|
            if i % 2 == 0 {
                hex_char(bytes[i / 2] as int / 16)
            } else {
                hex_char(bytes[i / 2] as int % 16)
            },
    )
}

proof fn lemma_encoded_pairs_decode(bytes: Seq<u8>, k: int)
    requires
        0 <= k <= bytes.len(),
    ensures
        decoded_pairs(hex_encoded(bytes), 2 * k) == Ok::<Seq<u8>, int>(bytes.skip(k)),
    decreases bytes.len() - k,
{
    let c = hex_encoded(bytes);
    if k < bytes.len() {
        lemma_encoded_pairs_decode(bytes, k + 1);
        let b = bytes[k] as int;
        assert(c[2 * k] == hex_char(b / 16) && c[2 * k + 1] == hex_char(b % 16)) by {
            assert((2 * k) / 2 == k && (2 * k + 1) / 2 == k);
        }
        assert(hex_digit(c[2 * k]) == Some(b / 16) && hex_digit(c[2 * k + 1]) == Some(b % 16));
        assert(seq![bytes[k]] + bytes.skip(k + 1) =~= bytes.skip(k));
    } else {
        assert(bytes.skip(k) =~= Seq::<u8>::empty());
    }
}

proof fn lemma_decoded_digits(c: Seq<char>, i: int, k: int)
    requires
        0 <= i <= k < c.len(),
        decoded_pairs(c, i) is Ok,
    ensures
        hex_digit(c[k]) is Some,
    decreases c.len() - i,
{
    if k >= i + 2 {
        lemma_decoded_digits(c, i + 2, k);
    }
}

/// A text that is decoded holds nothing but hexadecimal digits.
pub proof fn decoded_text_is_hexadecimal(hex: Seq<char>, k: int)
    requires
        hex_meaning(hex) is Ok,
        0 <= k < hex.len(),
    ensures
        hex_digit(hex[k]) is Some,
{
    lemma_decoded_digits(hex, 0, k);
}

/// Decoding the hexadecimal writing of a byte string gives the byte string.
pub proof fn hex_writing_decodes_to_its_bytes(bytes: Seq<u8>)
    ensures
        hex_meaning(hex_encoded(bytes)) == Ok::<Seq<u8>, Seq<char>>(bytes),
{
    let c = hex_encoded(bytes);
    lemma_encoded_pairs_decode(bytes, 0);
    assert(bytes.skip(0) =~= bytes);
    assert(vstd::utf8::is_ascii_chars(c)) by {
        assert forall|i: int| 0 <= i < c.len() implies 0 <= #[trigger] c[i] as int <= 127 by {}
    }
    vstd::utf8::is_ascii_chars_encode_utf8(c);
}

} // verus!
