use backend::decode::{hex_digit, percent_decode};

#[test]
fn hex_digits_have_their_values() {
    assert_eq!(hex_digit(b'0'), Some(0));
    assert_eq!(hex_digit(b'9'), Some(9));
    assert_eq!(hex_digit(b'a'), Some(10));
    assert_eq!(hex_digit(b'f'), Some(15));
    assert_eq!(hex_digit(b'A'), Some(10));
    assert_eq!(hex_digit(b'F'), Some(15));
}

#[test]
fn other_bytes_are_no_hex_digits() {
    assert_eq!(hex_digit(b'g'), None);
    assert_eq!(hex_digit(b'G'), None);
    assert_eq!(hex_digit(b'/'), None);
    assert_eq!(hex_digit(b':'), None);
    assert_eq!(hex_digit(b'@'), None);
    assert_eq!(hex_digit(b'`'), None);
    assert_eq!(hex_digit(0), None);
    assert_eq!(hex_digit(255), None);
}

#[test]
fn plain_bytes_stay() {
    assert_eq!(percent_decode(b""), b"".to_vec());
    assert_eq!(percent_decode(b"index.html"), b"index.html".to_vec());
    assert_eq!(percent_decode(b"a/b/c"), b"a/b/c".to_vec());
}

#[test]
fn escapes_are_replaced() {
    assert_eq!(percent_decode(b"%41"), b"A".to_vec());
    assert_eq!(percent_decode(b"a%20b"), b"a b".to_vec());
    assert_eq!(percent_decode(b"%2e%2E"), b"..".to_vec());
    assert_eq!(percent_decode(b"%2f%2F"), b"//".to_vec());
    assert_eq!(percent_decode(b"%00"), vec![0u8]);
    assert_eq!(percent_decode(b"%ff%FF"), vec![255u8, 255u8]);
    assert_eq!(percent_decode(b"%C3%A9"), vec![0xc3u8, 0xa9u8]);
}

#[test]
fn broken_escapes_stay() {
    assert_eq!(percent_decode(b"%"), b"%".to_vec());
    assert_eq!(percent_decode(b"%4"), b"%4".to_vec());
    assert_eq!(percent_decode(b"%zz"), b"%zz".to_vec());
    assert_eq!(percent_decode(b"%4g"), b"%4g".to_vec());
    assert_eq!(percent_decode(b"100%"), b"100%".to_vec());
    assert_eq!(percent_decode(b"50% off"), b"50% off".to_vec());
}

#[test]
fn decoding_goes_from_left_to_right_once() {
    assert_eq!(percent_decode(b"%%41"), b"%A".to_vec());
    assert_eq!(percent_decode(b"%2541"), b"%41".to_vec());
    assert_eq!(percent_decode(b"%4%41"), b"%4A".to_vec());
}

#[test]
fn decoding_never_grows() {
    let inputs: Vec<&[u8]> = vec![b"", b"%", b"%41%42", b"abc", b"%%%", b"a%2Fb%"];
    for input in inputs {
        assert!(percent_decode(input).len() <= input.len());
    }
}
