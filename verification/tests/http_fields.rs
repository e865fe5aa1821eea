use wasmx::engine::wasi::http::fields::{is_forbidden_header, parse_header_value, parse_u64, Fields};
use wasmx::engine::wasi::http::HeaderError;

fn entry(n: &str, v: &[u8]) -> (String, Vec<u8>) {
    (n.to_string(), v.to_vec())
}

#[test]
fn from_list_appends_in_order_and_lowercases() {
    let f = Fields::from_list(vec![
        entry("Content-Type", b"text/plain"),
        entry("x-a", b"1"),
        entry("X-A", b"2"),
    ])
    .unwrap();
    assert_eq!(f.get("x-a"), vec![b"1".to_vec(), b"2".to_vec()]);
    assert_eq!(f.get("X-a"), vec![b"1".to_vec(), b"2".to_vec()]);
    assert_eq!(f.get("content-type"), vec![b"text/plain".to_vec()]);
    assert!(f.has("CONTENT-TYPE"));
    assert!(!f.has("missing"));
}

#[test]
fn from_list_reports_first_error() {
    assert!(matches!(
        Fields::from_list(vec![entry("bad name", b"v")]),
        Err(HeaderError::InvalidSyntax)
    ));
    assert!(matches!(
        Fields::from_list(vec![entry("Host", b"example.com")]),
        Err(HeaderError::Forbidden)
    ));
    assert!(matches!(
        Fields::from_list(vec![entry("x", b"ok"), entry("y", b"bad\nvalue")]),
        Err(HeaderError::InvalidSyntax)
    ));
}

#[test]
fn content_length_is_normalized() {
    let f = Fields::from_list(vec![entry("content-length", b"+007")]).unwrap();
    assert_eq!(f.get("content-length"), vec![b"7".to_vec()]);
    assert!(matches!(
        Fields::from_list(vec![entry("content-length", b"12a")]),
        Err(HeaderError::InvalidSyntax)
    ));
    assert!(matches!(
        Fields::from_list(vec![entry("content-length", b"18446744073709551616")]),
        Err(HeaderError::InvalidSyntax)
    ));
}

#[test]
fn parse_u64_accepts_plus_and_digits_only() {
    assert_eq!(parse_u64(b"0"), Some(0));
    assert_eq!(parse_u64(b"+42"), Some(42));
    assert_eq!(parse_u64(b"18446744073709551615"), Some(u64::MAX));
    assert_eq!(parse_u64(b"18446744073709551616"), None);
    assert_eq!(parse_u64(b"+"), None);
    assert_eq!(parse_u64(b""), None);
    assert_eq!(parse_u64(b"-1"), None);
    assert_eq!(parse_u64(b" 1"), None);
}

#[test]
fn parse_header_value_checks_bytes() {
    assert_eq!(
        parse_header_value(&"x".to_string(), b"a\tb c".to_vec()),
        Ok(b"a\tb c".to_vec())
    );
    assert_eq!(
        parse_header_value(&"x".to_string(), vec![0x7f]),
        Err(HeaderError::InvalidSyntax)
    );
    assert_eq!(
        parse_header_value(&"content-length".to_string(), b"0010".to_vec()),
        Ok(b"10".to_vec())
    );
}

#[test]
fn forbidden_headers() {
    for n in [
        "connection",
        "keep-alive",
        "proxy-authenticate",
        "proxy-authorization",
        "proxy-connection",
        "te",
        "transfer-encoding",
        "upgrade",
        "host",
        "http2-settings",
    ] {
        assert!(is_forbidden_header(&n.to_string()), "{n}");
    }
    assert!(!is_forbidden_header(&"content-type".to_string()));
}

#[test]
fn set_replaces_values() {
    let mut f = Fields::new();
    assert_eq!(f.append("x-a", b"1".to_vec()), Ok(()));
    assert_eq!(f.set("X-A", vec![b"2".to_vec(), b"3".to_vec()]), Ok(()));
    assert_eq!(f.get("x-a"), vec![b"2".to_vec(), b"3".to_vec()]);
    assert_eq!(f.set("x-a", vec![]), Ok(()));
    assert!(!f.has("x-a"));
    assert_eq!(f.set("x-a", vec![b"ok".to_vec(), vec![0]]), Err(HeaderError::InvalidSyntax));
    assert_eq!(f.set("te", vec![b"x".to_vec()]), Err(HeaderError::Forbidden));
    assert_eq!(f.set("a b", vec![b"x".to_vec()]), Err(HeaderError::InvalidSyntax));
}

#[test]
fn delete_and_append() {
    let mut f = Fields::new();
    assert_eq!(f.append("x", b"1".to_vec()), Ok(()));
    assert_eq!(f.append("X", b"2".to_vec()), Ok(()));
    assert_eq!(f.get("x"), vec![b"1".to_vec(), b"2".to_vec()]);
    assert_eq!(f.delete("X"), Ok(()));
    assert_eq!(f.get("x"), Vec::<Vec<u8>>::new());
    assert_eq!(f.delete("upgrade"), Err(HeaderError::Forbidden));
    assert_eq!(f.delete("a:b"), Err(HeaderError::InvalidSyntax));
}

#[test]
fn immutable_fields_refuse_changes() {
    let mut f = Fields::new();
    f.append("x", b"1".to_vec()).unwrap();
    let mut child = f.child();
    assert_eq!(child.get("x"), vec![b"1".to_vec()]);
    assert_eq!(child.append("x", b"2".to_vec()), Err(HeaderError::Immutable));
    assert_eq!(child.set("x", vec![]), Err(HeaderError::Immutable));
    assert_eq!(child.delete("x"), Err(HeaderError::Immutable));
    // Syntax is checked before mutability.
    assert_eq!(child.delete("a b"), Err(HeaderError::InvalidSyntax));
    let mut copy = child.clone_fields();
    assert_eq!(copy.append("x", b"2".to_vec()), Ok(()));
    assert_eq!(copy.get("x").len(), 2);
}

#[test]
fn entries_group_values_by_name() {
    let f = Fields::from_list(vec![entry("a", b"1"), entry("b", b"2"), entry("A", b"3")]).unwrap();
    let e = f.entries();
    assert_eq!(e.len(), 3);
    let a: Vec<Vec<u8>> = e.iter().filter(|(n, _)| n == "a").map(|(_, v)| v.clone()).collect();
    assert_eq!(a, vec![b"1".to_vec(), b"3".to_vec()]);
}

#[test]
fn content_length_of_fields() {
    let f = Fields::from_list(vec![entry("Content-Length", b"42")]).unwrap();
    assert_eq!(f.content_length(), Ok(Some(42)));
    assert_eq!(Fields::new().content_length(), Ok(None));
}

#[test]
fn name_count_and_room_for_names() {
    let mut f = Fields::new();
    assert_eq!(f.name_count(), 0);
    assert_eq!(f.try_set("X-One", vec![b"1".to_vec(), b"2".to_vec()]), Some(Ok(())));
    assert_eq!(f.try_append("x-two", b"a".to_vec()), Some(Ok(())));
    assert_eq!(f.try_append("x-two", b"b".to_vec()), Some(Ok(())));
    assert_eq!(f.name_count(), 2);
    assert_eq!(f.get("x-two"), vec![b"a".to_vec(), b"b".to_vec()]);
    assert_eq!(f.try_set("bad name", vec![]), Some(Err(HeaderError::InvalidSyntax)));
    assert_eq!(f.try_append("x-two", b"bad\r".to_vec()), Some(Err(HeaderError::InvalidSyntax)));
    assert_eq!(f.try_set("x-one", vec![]), Some(Ok(())));
    assert_eq!(f.name_count(), 1);
}

#[test]
fn try_append_goes_past_the_safe_bound() {
    let mut f = Fields::new();
    for i in 0..7000u32 {
        assert_eq!(f.try_append(&format!("x-{i}"), b"v".to_vec()), Some(Ok(())));
    }
    assert_eq!(f.name_count(), 7000);
    assert_eq!(f.try_set("x-1", vec![b"w".to_vec()]), Some(Ok(())));
    assert_eq!(f.get("x-1"), vec![b"w".to_vec()]);
}

#[test]
fn received_headers_keep_forbidden_names() {
    let mut f = Fields::new();
    assert_eq!(f.try_append_received("Host", b"example.com".to_vec()), Some(Ok(())));
    assert_eq!(f.try_append_received("Connection", b"keep-alive".to_vec()), Some(Ok(())));
    assert_eq!(f.try_append_received("bad name", b"x".to_vec()), Some(Err(HeaderError::InvalidSyntax)));
    assert_eq!(f.try_append_received("x", b"a\nb".to_vec()), Some(Err(HeaderError::InvalidSyntax)));
    assert_eq!(f.get("host"), vec![b"example.com".to_vec()]);
    assert_eq!(f.name_count(), 2);
    // A guest may not add them.
    assert_eq!(f.try_append("host", b"other".to_vec()), Some(Err(HeaderError::Forbidden)));
}
