use link_archive::session::{clear, decode, encode, find_cookie, is_header, COOKIE_NAME};

fn headers(values: &[&str]) -> Vec<String> {
    values.iter().map(|v| v.to_string()).collect()
}

#[test]
fn encode_sets_the_mandatory_flags() {
    assert_eq!(COOKIE_NAME, "ear7h-token");
    assert_eq!(encode("abc.def.ghi"), "ear7h-token=abc.def.ghi; HttpOnly; SameSite=Strict; Path=/");
    assert_eq!(encode(""), "ear7h-token=; HttpOnly; SameSite=Strict; Path=/");
}

#[test]
fn clear_expires_the_cookie_at_once() {
    assert_eq!(clear(), "ear7h-token=; HttpOnly; SameSite=Strict; Path=/; Max-Age=0");
}

#[test]
fn cookie_round_trip() {
    for token in ["abc.def.ghi", "", "a=b=c", "x", "with space inside", "\"open", "eyJ0.eyJ1-_.sig"] {
        let line = encode(token);
        assert_eq!(decode(&headers(&[&line])), Some(token.to_string()), "{:?}", token);
    }
}

#[test]
fn cookie_round_trip_fails_outside_its_domain() {
    assert_eq!(decode(&headers(&[&encode("a;b")])), Some("a".to_string()));
    assert_eq!(decode(&headers(&[&encode(" a ")])), Some("a".to_string()));
    assert_eq!(decode(&headers(&[&encode("\"quoted\"")])), Some("quoted".to_string()));
    assert_eq!(decode(&headers(&[&encode("caf\u{e9}")])), None);
}

#[test]
fn decode_without_the_cookie_is_none() {
    assert_eq!(decode(&headers(&[])), None);
    assert_eq!(decode(&headers(&[""])), None);
    assert_eq!(decode(&headers(&["other=1"])), None);
    assert_eq!(decode(&headers(&["other=1; more=2", "third=3"])), None);
    assert_eq!(decode(&headers(&["ear7h-token"])), None);
    assert_eq!(decode(&headers(&["ear7h-tokens=1; xear7h-token=2"])), None);
    assert_eq!(decode(&headers(&["=ear7h-token"])), None);
}

#[test]
fn decode_scans_all_headers_and_entries() {
    assert_eq!(decode(&headers(&["a=1; ear7h-token=tok; b=2"])), Some("tok".to_string()));
    assert_eq!(decode(&headers(&["a=1", "b=2; c=3", "d=4;ear7h-token=tok"])), Some("tok".to_string()));
    assert_eq!(decode(&headers(&["a=1;;  ; ear7h-token = tok "])), Some("tok".to_string()));
    assert_eq!(decode(&headers(&["ear7h-token=\"tok\""])), Some("tok".to_string()));
    assert_eq!(decode(&headers(&["ear7h-token=a,b"])), Some("a,b".to_string()));
}

#[test]
fn decode_takes_the_first_match() {
    assert_eq!(decode(&headers(&["ear7h-token=one; ear7h-token=two"])), Some("one".to_string()));
    assert_eq!(decode(&headers(&["ear7h-token=one", "ear7h-token=two"])), Some("one".to_string()));
    assert_eq!(decode(&headers(&["ear7h-token=", "ear7h-token=two"])), Some("".to_string()));
}

#[test]
fn decode_passes_over_what_is_no_header_text() {
    assert_eq!(decode(&headers(&["ear7h-token=caf\u{e9}", "ear7h-token=two"])), Some("two".to_string()));
    assert_eq!(decode(&headers(&["ear7h-token=a\nb"])), None);
    assert_eq!(decode(&headers(&["ear7h-token=a\u{7f}"])), None);
    assert_eq!(decode(&headers(&["ear7h-token=a\tb"])), Some("a\tb".to_string()));
}

#[test]
fn find_cookie_by_any_name() {
    assert_eq!(find_cookie("a=1; b=2", "b"), Some("2".to_string()));
    assert_eq!(find_cookie("a=1; b=2", "c"), None);
    assert_eq!(find_cookie("a=1; b", "b"), None);
    assert_eq!(find_cookie("a=1\u{0}; b=2", "b"), None);
}

#[test]
fn header_text_is_visible_ascii_space_or_tab() {
    assert!(is_header(""));
    assert!(is_header("abc XYZ ~!\t"));
    assert!(!is_header("a\nb"));
    assert!(!is_header("a\rb"));
    assert!(!is_header("\u{7f}"));
    assert!(!is_header("\u{1f}"));
    assert!(!is_header("caf\u{e9}"));
}
