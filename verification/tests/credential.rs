use tonic_lnd::error::ErrorKind;
use tonic_lnd::macaroon::{decode_macaroon, encode_macaroon, load_macaroon};
use tonic_lnd::text::decimal_string;

#[test]
fn encodes_two_bytes_in_lower_case() {
    assert_eq!(encode_macaroon(&[0xAB, 0xCD]), "abcd");
}

#[test]
fn encodes_nothing_as_the_empty_string() {
    assert_eq!(encode_macaroon(&[]), "");
}

#[test]
fn encodes_high_half_first() {
    assert_eq!(encode_macaroon(&[0x01, 0x10, 0x0f, 0xf0, 0x80, 0xff]), "01100ff080ff");
}

#[test]
fn encoding_agrees_with_hex_digits_of_each_byte() {
    let digits = "0123456789abcdef".as_bytes();
    for byte in 0..=255u8 {
        let expected = vec![digits[(byte / 16) as usize], digits[(byte % 16) as usize]];
        assert_eq!(encode_macaroon(&[byte]).as_bytes(), &expected[..]);
    }
}

#[test]
fn decoding_an_encoding_gives_the_bytes_back() {
    let all: Vec<u8> = (0..=255u8).collect();
    assert_eq!(decode_macaroon(&encode_macaroon(&all)), Some(all));
    assert_eq!(decode_macaroon(&encode_macaroon(&[])), Some(vec![]));
    assert_eq!(decode_macaroon(&encode_macaroon(&[0x80, 0xfe, 0x00])), Some(vec![0x80, 0xfe, 0x00]));
}

#[test]
fn decodes_digits_of_either_case() {
    assert_eq!(decode_macaroon("ABcd09"), Some(vec![0xab, 0xcd, 0x09]));
}

#[test]
fn refuses_an_odd_number_of_digits() {
    assert_eq!(decode_macaroon("abc"), None);
}

#[test]
fn refuses_what_is_no_digit() {
    assert_eq!(decode_macaroon("0g"), None);
    assert_eq!(decode_macaroon("0x12"), None);
    assert_eq!(decode_macaroon(" 12 "), None);
    assert_eq!(decode_macaroon("\u{e9}\u{e9}"), None);
}

#[test]
fn a_macaroon_file_is_encoded_whole() {
    let loaded = load_macaroon("admin.macaroon", Ok(vec![0xAB, 0xCD])).unwrap();
    assert_eq!(loaded, "abcd");
    let large = load_macaroon("admin.macaroon", Ok(vec![0x5a; 100_000])).unwrap();
    assert_eq!(large.len(), 200_000);
}

#[test]
fn an_unreadable_macaroon_file_is_named() {
    let error = load_macaroon("/no/such/admin.macaroon", Err("not found".to_string())).unwrap_err();
    assert_eq!(error.kind(), ErrorKind::ReadFile);
    assert_eq!(error.message(), "failed to read file /no/such/admin.macaroon");
    assert_eq!(error.source(), "not found");
}

#[test]
fn numbers_are_written_in_decimal() {
    assert_eq!(decimal_string(0), "0");
    assert_eq!(decimal_string(7), "7");
    assert_eq!(decimal_string(10), "10");
    assert_eq!(decimal_string(65535), "65535");
    assert_eq!(decimal_string(1002003), "1002003");
    assert_eq!(decimal_string(usize::MAX), format!("{}", usize::MAX));
}
