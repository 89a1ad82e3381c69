use maintui::{bytes_to_string, escape_string, from_utf16_lossy, from_utf32_lossy, ResourceError, Strings};

#[test]
fn escapes() {
    assert_eq!(escape_string("a\\nb"), "a\nb");
    assert_eq!(escape_string("a\\\\b"), "a\\b");
    assert_eq!(escape_string("a\\tb"), "a\\tb");
    assert_eq!(escape_string("end\\"), "end");
    assert_eq!(escape_string(""), "");
}

#[test]
fn lookups_ignore_leading_hash() {
    let mut s = Strings::new();
    s.insert("GameUI_Quit".to_string(), "Quit".to_string());
    assert_eq!(s.try_get("#GameUI_Quit"), Some("Quit"));
    assert_eq!(s.try_get("GameUI_Quit"), Some("Quit"));
    assert_eq!(s.try_get("Missing"), None);
    assert_eq!(s.get("#Missing"), "#Missing");
    s.insert("GameUI_Quit".to_string(), "Exit".to_string());
    assert_eq!(s.get("GameUI_Quit"), "Exit");
}

fn tokens(t: &[&str]) -> Vec<String> {
    t.iter().map(|s| s.to_string()).collect()
}

#[test]
fn resource_files() {
    let mut s = Strings::new();
    let ok = tokens(&["lang", "{", "Language", "English", "Tokens", "{", "A", "x\\ny", "B", "", "}", "}"]);
    assert_eq!(s.parse_resource_file(&ok), Ok(()));
    assert_eq!(s.get("A"), "x\ny");
    assert_eq!(s.try_get("B"), None);

    let mut s = Strings::new();
    let cut = tokens(&["lang", "{", "Language", "English", "Tokens", "{", "A", "1", "C"]);
    assert_eq!(s.parse_resource_file(&cut), Err(ResourceError::UnexpectedEnd));
    assert_eq!(s.get("A"), "1");

    let bad = tokens(&["lang", "[", "Language", "English", "Tokens", "{", "}", "}"]);
    assert_eq!(s.parse_resource_file(&bad), Err(ResourceError::Expected("{".to_string())));
    let unclosed = tokens(&["lang", "{", "Language", "English", "Tokens", "{", "}", "x"]);
    assert_eq!(s.parse_resource_file(&unclosed), Err(ResourceError::Expected("}".to_string())));
}

#[test]
fn byte_order_marks() {
    assert_eq!(bytes_to_string(b"plain"), "plain");
    assert_eq!(bytes_to_string(b"\xef\xbb\xbfbom"), "bom");
    assert_eq!(bytes_to_string(&[0xff, 0xfe, b'h', 0, b'i', 0]), "hi");
    assert_eq!(bytes_to_string(&[0xfe, 0xff, 0, b'h', 0, b'i']), "hi");
    assert_eq!(bytes_to_string(&[0, 0, 0xfe, 0xff, 0, 0, 0, b'A']), "A");
    assert_eq!(bytes_to_string(&[0xfe, 0xff, 0, 0, b'A', 0, 0, 0]), "A");
    assert_eq!(bytes_to_string(b"bad\xffbyte"), "bad\u{FFFD}byte");
}

#[test]
fn wide_decoding() {
    assert_eq!(from_utf32_lossy(&[0x41, 0, 0, 0, 0, 0xd8, 0, 0, 0x42], false), "A\u{FFFD}");
    assert_eq!(from_utf16_lossy(&[0xd8, 0x3d, 0xde, 0x00, 0], true), "\u{1F600}");
    assert_eq!(from_utf16_lossy(&[0x00, 0xd8, 0x41, 0x00], false), "\u{FFFD}A");
}
