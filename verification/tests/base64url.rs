use rawtoh_module_sdk::base64url::{decode, encode};

#[test]
fn matches_the_typescript_sdk() {
    // Bytes chosen to exercise `+`/`/` -> `-`/`_` and stripped padding.
    assert_eq!(encode(&[0xfb, 0xff, 0xfe]), "-__-");
    assert_eq!(encode(b"a"), "YQ");
    assert_eq!(decode("YQ").unwrap(), b"a");
}

#[test]
fn every_length_has_its_text() {
    assert_eq!(encode(b""), "");
    assert_eq!(encode(b"ab"), "YWI");
    assert_eq!(encode(b"abc"), "YWJj");
    assert_eq!(encode(b"abcd"), "YWJjZA");
}

#[test]
fn decoding_gives_back_what_was_encoded() {
    let mut bytes: Vec<u8> = Vec::new();
    for i in 0..=255u8 {
        assert_eq!(decode(&encode(&bytes)).unwrap(), bytes);
        bytes.push(i);
    }
}

#[test]
fn encoding_gives_back_what_was_decoded() {
    for text in ["", "YQ", "YWI", "YWJj", "-__-"] {
        assert_eq!(encode(&decode(text).unwrap()), text);
    }
}

#[test]
fn texts_that_nothing_encodes_to_are_refused() {
    assert!(decode("Y").is_err()); // one symbol is no byte
    assert!(decode("YQ==").is_err()); // padding
    assert!(decode("YR").is_err()); // set bits after the last byte
    assert!(decode("+//+").is_err()); // the other alphabet
    assert!(decode("YQ\n").is_err());
}
