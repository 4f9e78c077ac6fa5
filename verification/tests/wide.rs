use wasapi_host::wide::WideString;

fn wide(text: &str) -> WideString {
    let mut units: Vec<u16> = text.encode_utf16().collect();
    units.push(0);
    WideString::new(units).unwrap()
}

#[test]
fn text_ends_at_the_first_zero() {
    let s = WideString::new(vec![0x41, 0x42, 0, 0x43, 0]).unwrap();
    assert_eq!(s.len(), 2);
    assert_eq!(s.to_string_lossy(), "AB");
}

#[test]
fn text_without_end_is_none() {
    assert!(WideString::new(vec![]).is_none());
    assert!(WideString::new(vec![0x41, 0x42]).is_none());
}

#[test]
fn empty_text() {
    let s = WideString::new(vec![0]).unwrap();
    assert_eq!(s.len(), 0);
    assert_eq!(s.to_string_lossy(), "");
}

#[test]
fn text_is_given_back() {
    for text in ["Lautsprecher (Realtek)", "\u{7}\u{D7FF}\u{E000}\u{FFFD}", "a\u{1F3A7}b\u{10FFFF}"] {
        assert_eq!(wide(text).to_string_lossy(), text);
    }
}

#[test]
fn lone_surrogates_are_replaced() {
    let units = vec![0x41, 0xD83C, 0x42, 0xDFA7, 0xD83C, 0xD83C, 0xDFA7, 0xD800, 0];
    let s = WideString::new(units.clone()).unwrap();
    assert_eq!(s.to_string_lossy(), "A\u{FFFD}B\u{FFFD}\u{FFFD}\u{1F3A7}\u{FFFD}");
    assert_eq!(s.to_string_lossy(), String::from_utf16_lossy(&units[..8]));
}

#[test]
fn texts_are_compared_up_to_their_end() {
    let a = WideString::new(vec![1, 2, 0, 3]).unwrap();
    let b = WideString::new(vec![1, 2, 0]).unwrap();
    let c = WideString::new(vec![1, 2, 3, 0]).unwrap();
    let d = WideString::new(vec![1, 4, 0]).unwrap();
    assert!(a.same(&b));
    assert!(b.same(&a));
    assert!(!a.same(&c));
    assert!(!c.same(&a));
    assert!(!a.same(&d));
}
