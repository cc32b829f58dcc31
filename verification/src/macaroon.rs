//! The macaroon credential and its hexadecimal wire form.

use vstd::prelude::*;
use crate::error::{ConnectFailure, LndConnectError, LndInternalConnectError};
use crate::text::chars_of;

verus! {

/// The lower-case hexadecimal digit of a value below 16.
pub open spec fn hex_digit(nibble: int) -> char {
    seq!['0', '1', '2', '3', '4', '5', '6', '7', '8', '9', 'a', 'b', 'c', 'd', 'e', 'f'][nibble]
}

/// The hexadecimal form of a byte string: two lower-case digits per byte,
/// the high half first.
pub open spec fn hex_encoding(bytes: Seq<u8>) -> Seq<char> {
    Seq::new(
        2 * bytes.len(),
        |i: int|
            if i % 2 == 0 {
                hex_digit(bytes[i / 2] as int / 16)
            } else {
                hex_digit(bytes[i / 2] as int % 16)
            },
    )
}

/// The value of a hexadecimal digit of either case, `None` for any other
/// character.
pub open spec fn hex_value(c: char) -> Option<int> {
    if '0' <= c <= '9' {
        Some(c as int - '0' as int)
    } else if 'a' <= c <= 'f' {
        Some(c as int - 'a' as int + 10)
    } else if 'A' <= c <= 'F' {
        Some(c as int - 'A' as int + 10)
    } else {
        None
    }
}

/// Whether a string is made of an even number of hexadecimal digits.
pub open spec fn is_hex(text: Seq<char>) -> bool {
    &&& text.len() % 2 == 0
    &&& forall|i: int| 0 <= i < text.len() ==> hex_value(#[trigger] text[i]) is Some
}

/// The byte string that a hexadecimal string stands for, `None` where the
/// string is not hexadecimal.
pub open spec fn hex_decoding(text: Seq<char>) -> Option<Seq<u8>> {
    if is_hex(text) {
        Some(
            Seq::new(
                text.len() / 2,
                |i: int| (16 * hex_value(text[2 * i])->0 + hex_value(text[2 * i + 1])->0) as u8,
            ),
        )
    } else {
        None
    }
}

/// Every character of a hexadecimal encoding is a lower-case digit, and
/// there are two of them for each byte.
pub proof fn lemma_hex_encoding_alphabet(bytes: Seq<u8>)
    ensures
        hex_encoding(bytes).len() == 2 * bytes.len(),
        is_hex(hex_encoding(bytes)),
        forall|i: int|
            0 <= i < hex_encoding(bytes).len() ==> {
                let c = #[trigger] hex_encoding(bytes)[i];
                '0' <= c <= '9' || 'a' <= c <= 'f'
            },
{
    let text = hex_encoding(bytes);
    assert forall|i: int| 0 <= i < text.len() implies {
        let c = #[trigger] text[i];
        &&& hex_value(c) is Some
        &&& ('0' <= c <= '9' || 'a' <= c <= 'f')
    } by {
        let b = bytes[i / 2] as int;
        lemma_hex_digit_value(b / 16);
        lemma_hex_digit_value(b % 16);
    }
}

/// A digit written by `hex_digit` reads back as the value it was written
/// for.
pub proof fn lemma_hex_digit_value(nibble: int)
    requires
        0 <= nibble < 16,
    ensures
        hex_value(hex_digit(nibble)) == Some(nibble),
        '0' <= hex_digit(nibble) <= '9' || 'a' <= hex_digit(nibble) <= 'f',
{
}

/// Decoding the hexadecimal form of a byte string gives the byte string
/// back, whatever its length and whatever bytes it holds.
pub proof fn lemma_hex_round_trip(bytes: Seq<u8>)
    ensures
        hex_decoding(hex_encoding(bytes)) == Some(bytes),
{
    let text = hex_encoding(bytes);
    lemma_hex_encoding_alphabet(bytes);
    let decoded = hex_decoding(text)->0;
    assert(decoded.len() == bytes.len());
    assert forall|i: int| 0 <= i < bytes.len() implies decoded[i] == bytes[i] by {
        let b = bytes[i] as int;
        lemma_hex_digit_value(b / 16);
        lemma_hex_digit_value(b % 16);
        assert(text[2 * i] == hex_digit(b / 16));
        assert(text[2 * i + 1] == hex_digit(b % 16));
    }
    assert(decoded =~= bytes);
}

/// Calls `hex::encode`, which writes each byte as two characters taken from
/// the table `0123456789abcdef`: first the one for the high four bits, then
/// the one for the low four bits.
#[verifier::external_body]
fn hex_encode(data: &[u8]) -> (encoded: String)
    ensures
        encoded@ == hex_encoding(data@),
{
    hex::encode(data)
}

/// Encodes the raw bytes of a macaroon as the hexadecimal string that is
/// sent with every request.
pub fn encode_macaroon(macaroon: &[u8]) -> (encoded: String)
    ensures
        encoded@ == hex_encoding(macaroon@),
        hex_decoding(encoded@) == Some(macaroon@),
{
    proof {
        lemma_hex_round_trip(macaroon@);
    }
    hex_encode(macaroon)
}

/// Makes the macaroon of the file `path` fit to send, given what reading
/// the file gave: its contents, or the text of the error. The contents are
/// taken as they are, whatever their length.
pub fn load_macaroon(path: &str, read: Result<Vec<u8>, String>) -> (loaded: Result<
    String,
    LndConnectError,
>)
    ensures
        match read {
            Ok(contents) => loaded matches Ok(encoded) && encoded@ == hex_encoding(contents@),
            Err(cause) => loaded matches Err(error) && error@ == (ConnectFailure::ReadFile {
                file: path@,
                error: cause@,
            }),
        },
{
    match read {
        Ok(contents) => Ok(encode_macaroon(contents.as_slice())),
        Err(cause) => Err(
            LndConnectError::from(
                LndInternalConnectError::ReadFile { file: String::from_str(path), error: cause },
            ),
        ),
    }
}

fn digit_value(c: char) -> (value: Option<u8>)
    ensures
        match value {
            Some(value) => hex_value(c) == Some(value as int),
            None => hex_value(c) is None,
        },
{
    if '0' <= c && c <= '9' {
        Some((c as u32 - '0' as u32) as u8)
    } else if 'a' <= c && c <= 'f' {
        Some((c as u32 - 'a' as u32 + 10) as u8)
    } else if 'A' <= c && c <= 'F' {
        Some((c as u32 - 'A' as u32 + 10) as u8)
    } else {
        None
    }
}

/// Reads a macaroon back from its hexadecimal form. Digits of either case
/// are taken; a string of odd length or with any other character is
/// refused.
pub fn decode_macaroon(encoded: &str) -> (decoded: Option<Vec<u8>>)
    ensures
        match decoded {
            Some(bytes) => hex_decoding(encoded@) == Some(bytes@),
            None => hex_decoding(encoded@) is None,
        },
{
    let chars = chars_of(encoded);
    if chars.len() % 2 != 0 {
        return None;
    }
    let count = chars.len() / 2;
    let mut bytes: Vec<u8> = Vec::new();
    let mut i: usize = 0;
    while i < count
        invariant
            i <= count,
            chars@ == encoded@,
            chars.len() == 2 * count,
            bytes.len() == i,
            forall|j: int| 0 <= j < 2 * i ==> hex_value(#[trigger] chars@[j]) is Some,
            forall|j: int|
                0 <= j < i ==> #[trigger] bytes@[j] as int == 16 * hex_value(chars@[2 * j])->0
                    + hex_value(chars@[2 * j + 1])->0,
        decreases count - i,
    {
        let high = digit_value(chars[2 * i]);
        let low = digit_value(chars[2 * i + 1]);
        match (high, low) {
            (Some(high), Some(low)) => {
                bytes.push(high * 16 + low);
            },
            _ => {
                assert(hex_value(chars@[2 * i as int]) is None || hex_value(
                    chars@[2 * i + 1],
                ) is None);
                return None;
            },
        }
        i += 1;
    }
    assert(is_hex(encoded@));
    assert(bytes@ =~= hex_decoding(encoded@)->0);
    Some(bytes)
}

} // verus!
