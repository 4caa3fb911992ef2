use webview_automation::base64::{base64_decode, Base64Error};

#[test]
fn decodes_standard_vectors() {
    assert_eq!(base64_decode("").unwrap(), Vec::<u8>::new());
    assert_eq!(base64_decode("Zg==").unwrap(), b"f".to_vec());
    assert_eq!(base64_decode("Zm8=").unwrap(), b"fo".to_vec());
    assert_eq!(base64_decode("Zm9v").unwrap(), b"foo".to_vec());
    assert_eq!(base64_decode("Zm9vYg==").unwrap(), b"foob".to_vec());
    assert_eq!(base64_decode("Zm9vYmE=").unwrap(), b"fooba".to_vec());
    assert_eq!(base64_decode("Zm9vYmFy").unwrap(), b"foobar".to_vec());
}

#[test]
fn decodes_without_padding() {
    assert_eq!(base64_decode("Zg").unwrap(), b"f".to_vec());
    assert_eq!(base64_decode("Zm8").unwrap(), b"fo".to_vec());
}

#[test]
fn decodes_every_symbol_value() {
    let out = base64_decode("+/+/").unwrap();
    assert_eq!(out, vec![0xfb, 0xff, 0xbf]);
    let out = base64_decode("AAEC").unwrap();
    assert_eq!(out, vec![0x00, 0x01, 0x02]);
    let out = base64_decode("09az").unwrap();
    assert_eq!(out, vec![0xd3, 0xd6, 0xb3]);
}

#[test]
fn ignores_whitespace_anywhere() {
    assert_eq!(base64_decode("  Zm9v\nYmFy\t ").unwrap(), b"foobar".to_vec());
    assert_eq!(base64_decode("Zm\r\n9v").unwrap(), b"foo".to_vec());
    assert_eq!(base64_decode("\u{a0}Zm9v\u{3000}").unwrap(), b"foo".to_vec());
}

#[test]
fn stops_at_first_padding() {
    assert_eq!(base64_decode("Zg==Zm9v").unwrap(), b"f".to_vec());
    assert_eq!(base64_decode("Zg=!!").unwrap(), b"f".to_vec());
    assert_eq!(base64_decode("=Zm9v").unwrap(), Vec::<u8>::new());
}

#[test]
fn drops_incomplete_trailing_bits() {
    assert_eq!(base64_decode("Q").unwrap(), Vec::<u8>::new());
    assert_eq!(base64_decode("Zm9vY").unwrap(), b"foo".to_vec());
}

#[test]
fn rejects_characters_outside_the_alphabet() {
    assert_eq!(base64_decode("Zm9v!mFy"), Err(Base64Error::InvalidCharacter('!')));
    assert_eq!(base64_decode("Zm-_"), Err(Base64Error::InvalidCharacter('-')));
    assert_eq!(base64_decode("Zm9\u{141}"), Err(Base64Error::InvalidCharacter('\u{141}')));
}

#[test]
fn error_message_names_the_character() {
    let e = base64_decode("ab*d").unwrap_err();
    assert_eq!(e.message(), "Invalid base64 character: *");
}

#[test]
fn decodes_a_png() {
    let text = "iVBORw0KGgoAAAANSUhEUgAAAAEAAAABCAYAAAAfFcSJAAAADUlEQVR42mNkYPhfDwAChwGA60e6kgAAAABJRU5ErkJggg==";
    let expected: Vec<u8> = vec![
        137, 80, 78, 71, 13, 10, 26, 10, 0, 0, 0, 13, 73, 72, 68, 82, 0, 0, 0, 1, 0, 0, 0, 1, 8,
        6, 0, 0, 0, 31, 21, 196, 137, 0, 0, 0, 13, 73, 68, 65, 84, 120, 218, 99, 100, 96, 248, 95,
        15, 0, 2, 135, 1, 128, 235, 71, 186, 146, 0, 0, 0, 0, 73, 69, 78, 68, 174, 66, 96, 130,
    ];
    assert_eq!(base64_decode(text).unwrap(), expected);
}

#[test]
fn round_trips_padded_encodings() {
    // Each padding count: none, two, one.
    let cases: [(&str, &[u8]); 3] = [
        ("AP8A", &[0x00, 0xff, 0x00]),
        ("/w==", &[0xff]),
        ("gIA=", &[0x80, 0x80]),
    ];
    for (text, bytes) in cases {
        assert_eq!(base64_decode(text).unwrap(), bytes.to_vec());
    }
}

#[test]
fn invalid_character_before_padding_fails_after_padding_ignored() {
    assert!(base64_decode("Zm9v.mFy").is_err());
    assert!(base64_decode("Zm9v=.mFy").is_ok());
}
