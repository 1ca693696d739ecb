//! The textual form of a byte string: `0x` and two lowercase hex digits for each byte.

use crate::error::Error;
use vstd::prelude::*;

verus! {

/// `hex::FromHexError`: why `hex::decode` refused a text, opaque here.
#[verifier::external_type_specification]
#[verifier::external_body]
pub struct ExFromHexError(hex::FromHexError);

/// The lowercase hex digit that stands for `nibble`, for `0 <= nibble < 16`.
pub open spec fn hex_digit(nibble: int) -> char {
    seq!['0', '1', '2', '3', '4', '5', '6', '7', '8', '9', 'a', 'b', 'c', 'd', 'e', 'f'][nibble]
}

/// The value of a hex digit of either case, and `None` for any other character.
pub open spec fn hex_value(c: char) -> Option<int> {
    if 'A' <= c <= 'F' {
        Some(c as int - 'A' as int + 10)
    } else if 'a' <= c <= 'f' {
        Some(c as int - 'a' as int + 10)
    } else if '0' <= c <= '9' {
        Some(c as int - '0' as int)
    } else {
        None
    }
}

/// Two lowercase hex digits for each byte, the high nibble first.
pub open spec fn hex_string(bytes: Seq<u8>) -> Seq<char> {
    Seq::new(
        2 * bytes.len(),
        |i: int|
            if i % 2 == 0 {
                hex_digit(bytes[i / 2] as int / 16)
            } else {
                hex_digit(bytes[i / 2] as int % 16)
            },
    )
}

/// Whether `text` is an even number of hex digits, of either case.
pub open spec fn is_hex_string(text: Seq<char>) -> bool {
    &&& text.len() % 2 == 0
    &&& forall|i: int| 0 <= i < text.len() ==> (#[trigger] hex_value(text[i])) is Some
}

/// The bytes that the hex digits of `text` stand for, two digits to a byte.
pub open spec fn hex_bytes(text: Seq<char>) -> Seq<u8> {
    Seq::new(
        text.len() / 2,
        |i: int| (16 * hex_value(text[2 * i])->0 + hex_value(text[2 * i + 1])->0) as u8,
    )
}

/// `0x` followed by the hex digits of `bytes`.
pub open spec fn prefixed_hex(bytes: Seq<u8>) -> Seq<char> {
    seq!['0', 'x'] + hex_string(bytes)
}

/// The bytes that `text` stands for, where it is `0x` followed by hex digits.
pub open spec fn parse_prefixed_hex(text: Seq<char>) -> Option<Seq<u8>> {
    if text.len() >= 2 && text[0] == '0' && text[1] == 'x' && is_hex_string(text.skip(2)) {
        Some(hex_bytes(text.skip(2)))
    } else {
        None
    }
}

/// Whether `c` is one of the sixteen digits that `hex_digit` gives.
pub open spec fn is_lower_hex_digit(c: char) -> bool {
    ('0' <= c <= '9') || ('a' <= c <= 'f')
}

/// The digit written for a nibble is a lowercase hex digit and reads back as that nibble.
pub proof fn lemma_hex_digit_reads_back(nibble: int)
    requires
        0 <= nibble < 16,
    ensures
        is_lower_hex_digit(hex_digit(nibble)),
        hex_value(hex_digit(nibble)) == Some(nibble),
{
}

/// The digits written for any bytes are accepted as hex, and read back as those bytes.
pub proof fn lemma_hex_string_reads_back(bytes: Seq<u8>)
    ensures
        is_hex_string(hex_string(bytes)),
        hex_bytes(hex_string(bytes)) == bytes,
{
    let text = hex_string(bytes);
    assert forall|i: int| 0 <= i < text.len() implies (#[trigger] hex_value(text[i])) is Some by {
        lemma_hex_digit_reads_back(bytes[i / 2] as int / 16);
        lemma_hex_digit_reads_back(bytes[i / 2] as int % 16);
    }
    assert forall|i: int| 0 <= i < bytes.len() implies hex_bytes(text)[i] == bytes[i] by {
        lemma_hex_digit_reads_back(bytes[i] as int / 16);
        lemma_hex_digit_reads_back(bytes[i] as int % 16);
        assert(text[2 * i] == hex_digit(bytes[i] as int / 16));
        assert(text[2 * i + 1] == hex_digit(bytes[i] as int % 16));
    }
    assert(hex_bytes(text) =~= bytes);
}

/// The prefixed text of any bytes is `0x` followed by two lowercase hex digits for each
/// byte, and nothing else.
pub proof fn lemma_prefixed_hex_shape(bytes: Seq<u8>)
    ensures
        prefixed_hex(bytes).len() == 2 + 2 * bytes.len(),
        prefixed_hex(bytes)[0] == '0',
        prefixed_hex(bytes)[1] == 'x',
        forall|i: int|
            2 <= i < prefixed_hex(bytes).len() ==> is_lower_hex_digit(
                #[trigger] prefixed_hex(bytes)[i],
            ),
{
    let text = prefixed_hex(bytes);
    assert forall|i: int| 2 <= i < text.len() implies is_lower_hex_digit(#[trigger] text[i]) by {
        let k = i - 2;
        assert(text[i] == hex_string(bytes)[k]);
        lemma_hex_digit_reads_back(bytes[k / 2] as int / 16);
        lemma_hex_digit_reads_back(bytes[k / 2] as int % 16);
    }
}

/// Parsing the prefixed text of any bytes gives those bytes back.
pub proof fn lemma_prefixed_hex_round_trip(bytes: Seq<u8>)
    ensures
        parse_prefixed_hex(prefixed_hex(bytes)) == Some(bytes),
{
    lemma_hex_string_reads_back(bytes);
    assert(prefixed_hex(bytes).skip(2) =~= hex_string(bytes));
}

/// Calls `hex::encode`, which writes each byte as two lowercase hex digits.
#[verifier::external_body]
fn hex_encode(data: &[u8]) -> (text: String)
    ensures
        text@ == hex_string(data@),
{
    hex::encode(data)
}

/// Calls `hex::decode`, which accepts an even number of hex digits of either case
/// and refuses every other text.
///
/// It reads the text byte by byte. The bytes of a character beyond ASCII are no hex
/// digits, so where every byte is one, the bytes are the characters.
#[verifier::external_body]
fn hex_decode(text: &str) -> (res: Result<Vec<u8>, hex::FromHexError>)
    ensures
        match res {
            Ok(bytes) => is_hex_string(text@) && bytes@ == hex_bytes(text@),
            Err(_) => !is_hex_string(text@),
        },
{
    hex::decode(text)
}

/// Encode `data` as a 0x-prefixed hex string.
pub fn encode(data: &[u8]) -> (text: String)
    ensures
        text@ == prefixed_hex(data@),
{
    let digits = hex_encode(data);
    let mut text = String::from_str("0x");
    proof {
        reveal_strlit("0x");
        assert("0x"@ =~= seq!['0', 'x']);
    }
    text.append(digits.as_str());
    text
}

/// Decode bytes from a 0x-prefixed hex string.
///
/// Fails with `DecodeHexError` exactly when the prefix is missing or what follows it is
/// not an even number of hex digits.
pub fn decode(text: &str) -> (res: Result<Vec<u8>, Error>)
    ensures
        match res {
            Ok(bytes) => parse_prefixed_hex(text@) == Some(bytes@),
            Err(e) => e == Error::DecodeHexError && parse_prefixed_hex(text@) is None,
        },
{
    let len = text.unicode_len();
    if len < 2 {
        return Err(Error::DecodeHexError);
    }
    if text.get_char(0) != '0' || text.get_char(1) != 'x' {
        return Err(Error::DecodeHexError);
    }
    let digits = text.substring_char(2, len);
    assert(digits@ =~= text@.skip(2));
    match hex_decode(digits) {
        Ok(bytes) => Ok(bytes),
        Err(_) => Err(Error::DecodeHexError),
    }
}

} // verus!
