use bls::hex_text::{decode, encode};
use bls::Error;

#[test]
fn encode_writes_prefix_and_lowercase_digits() {
    assert_eq!(encode(&[0, 255]), "0x00ff");
    assert_eq!(encode(&[1, 2, 3]), "0x010203");
    assert_eq!(encode(&[0xab, 0xcd, 0xef, 0x09]), "0xabcdef09");
}

#[test]
fn encode_of_nothing_is_the_prefix() {
    assert_eq!(encode(&[]), "0x");
}

#[test]
fn encode_writes_the_high_nibble_first() {
    assert_eq!(encode(&[0x1f]), "0x1f");
    assert_eq!(encode(&[0xf1]), "0xf1");
}

#[test]
fn decode_reads_digits_of_either_case() {
    assert_eq!(decode("0x00ff"), Ok(vec![0, 255]));
    assert_eq!(decode("0x00FF"), Ok(vec![0, 255]));
    assert_eq!(decode("0xAbCdEf09"), Ok(vec![0xab, 0xcd, 0xef, 0x09]));
}

#[test]
fn decode_of_the_bare_prefix_is_empty() {
    assert_eq!(decode("0x"), Ok(vec![]));
}

#[test]
fn decode_without_prefix_is_hex_error() {
    assert_eq!(decode("00ff"), Err(Error::DecodeHexError));
    assert_eq!(decode(""), Err(Error::DecodeHexError));
    assert_eq!(decode("0"), Err(Error::DecodeHexError));
    assert_eq!(decode("x0"), Err(Error::DecodeHexError));
    assert_eq!(decode("0X00ff"), Err(Error::DecodeHexError));
    assert_eq!(decode(" 0x00ff"), Err(Error::DecodeHexError));
}

#[test]
fn decode_of_odd_digit_count_is_hex_error() {
    assert_eq!(decode("0x0"), Err(Error::DecodeHexError));
    assert_eq!(decode("0x00f"), Err(Error::DecodeHexError));
}

#[test]
fn decode_of_other_characters_is_hex_error() {
    assert_eq!(decode("0x00fg"), Err(Error::DecodeHexError));
    assert_eq!(decode("0x00 f"), Err(Error::DecodeHexError));
    assert_eq!(decode("0x0x00"), Err(Error::DecodeHexError));
    assert_eq!(decode("0x00ff\n"), Err(Error::DecodeHexError));
}

#[test]
fn decode_of_text_beyond_ascii_is_hex_error() {
    assert_eq!(decode("0x\u{e9}\u{e9}"), Err(Error::DecodeHexError));
    assert_eq!(decode("0x0\u{e9}"), Err(Error::DecodeHexError));
    assert_eq!(decode("\u{e9}x00"), Err(Error::DecodeHexError));
    assert_eq!(decode("0x\u{ff10}\u{ff10}"), Err(Error::DecodeHexError));
}

#[test]
fn decode_gives_back_what_encode_was_given() {
    let mut all: Vec<u8> = Vec::new();
    for b in 0..=255u8 {
        all.push(b);
    }
    let text = encode(&all);
    assert_eq!(text.len(), 2 + 2 * 256);
    assert_eq!(decode(&text), Ok(all));
}
