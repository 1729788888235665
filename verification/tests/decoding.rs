use tinyserve::percent::safe_percent_decode;

#[test]
fn plain_text_passes_through() {
    assert_eq!(safe_percent_decode("abc/def.html"), Some(String::from("abc/def.html")));
}

#[test]
fn empty_input_decodes_to_empty() {
    assert_eq!(safe_percent_decode(""), Some(String::from("")));
}

#[test]
fn single_escape_decodes() {
    assert_eq!(safe_percent_decode("%41"), Some(String::from("A")));
    assert_eq!(safe_percent_decode("a%20b"), Some(String::from("a b")));
}

#[test]
fn upper_and_lower_hex_digits_decode() {
    assert_eq!(safe_percent_decode("%2F"), Some(String::from("/")));
    assert_eq!(safe_percent_decode("%2f"), Some(String::from("/")));
}

#[test]
fn truncated_escape_is_rejected() {
    assert_eq!(safe_percent_decode("%"), None);
    assert_eq!(safe_percent_decode("%4"), None);
    assert_eq!(safe_percent_decode("abc%"), None);
}

#[test]
fn non_hex_escape_is_rejected() {
    assert_eq!(safe_percent_decode("%zz"), None);
    assert_eq!(safe_percent_decode("%4g"), None);
    assert_eq!(safe_percent_decode("%+f"), None);
}

#[test]
fn round_trip_over_escaped_bytes() {
    // Every byte written as an escape comes back as the character
    // with that byte's value.
    let bytes: Vec<u8> = vec![0x00, 0x2e, 0x2f, 0x41, 0x7f, 0x80, 0xff];
    let mut encoded = String::new();
    for b in &bytes {
        encoded.push('%');
        encoded.push_str(&format!("{:02x}", b));
    }
    let decoded = safe_percent_decode(&encoded).expect("escapes must decode");
    let expected: String = bytes.iter().map(|&b| b as char).collect();
    assert_eq!(decoded, expected);
}
