use weechat::strings::{from_host, str_eq, LossyCString};

#[test]
fn to_host_strips_terminator_bytes() {
    let s = LossyCString::new("ab\0c\0");
    assert_eq!(s.as_bytes(), b"abc");
    assert_eq!(s.to_bytes_with_nul(), b"abc\0".to_vec());
}

#[test]
fn to_host_keeps_clean_text() {
    let s = LossyCString::new("héllo wörld");
    assert_eq!(s.as_bytes(), "héllo wörld".as_bytes());
}

#[test]
fn from_host_stops_at_terminator() {
    assert_eq!(from_host(b"abc\0def"), "abc");
    assert_eq!(from_host(b"\0abc"), "");
    assert_eq!(from_host(b""), "");
}

#[test]
fn from_host_replaces_invalid_bytes() {
    assert_eq!(from_host(b"a\xffb"), "a\u{FFFD}b");
    assert_eq!(from_host(&[0xe2, 0x82]), "\u{FFFD}");
}

#[test]
fn round_trip_through_host() {
    for s in ["", "Hello", "grüße", "日本語", "tab\tand\nnewline"] {
        let h = LossyCString::new(s);
        assert_eq!(from_host(h.as_bytes()), s);
        assert_eq!(from_host(&h.to_bytes_with_nul()), s);
    }
}

#[test]
fn to_host_never_holds_a_terminator() {
    for s in ["\0", "\0\0\0", "a\0b", "\0é\0"] {
        let h = LossyCString::new(s);
        assert!(!h.as_bytes().contains(&0));
    }
}

#[test]
fn text_equality() {
    assert!(str_eq("integer", "integer"));
    assert!(!str_eq("integer", "pointer"));
    assert!(!str_eq("", "a"));
}
