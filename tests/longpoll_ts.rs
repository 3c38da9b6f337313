use vkclient::longpoll::{read_optional_ts_member, read_ts_member};

fn ts_of(payload: &str) -> Option<String> {
    read_ts_member(payload.as_bytes())
}

fn optional_ts_of(payload: &str) -> Option<String> {
    read_optional_ts_member(payload.as_bytes()).unwrap()
}

#[test]
fn test_deserialize_ts_string() {
    let ts = ts_of(r#"{"ts": "123"}"#).unwrap();
    assert_eq!(ts, "123".to_string())
}

#[test]
fn test_deserialize_ts_usize() {
    let ts = ts_of(r#"{"ts": 123}"#).unwrap();
    assert_eq!(ts, "123".to_string())
}

#[test]
fn test_deserialize_ts_opt_string() {
    let ts = optional_ts_of(r#"{"ts": "123"}"#);
    assert_eq!(ts, Some("123".to_string()))
}

#[test]
fn test_deserialize_ts_opt_usize() {
    let ts = optional_ts_of(r#"{"ts": 123}"#);
    assert_eq!(ts, Some("123".to_string()))
}

#[test]
fn test_deserialize_ts_opt_none() {
    let ts = optional_ts_of(r#"{}"#);
    assert_eq!(ts, None)
}

#[test]
fn ts_of_other_kinds_is_rejected() {
    assert_eq!(ts_of(r#"{"ts": -5}"#), None);
    assert_eq!(ts_of(r#"{"ts": null}"#), None);
    assert_eq!(ts_of(r#"{"ts": [1]}"#), None);
    assert!(read_optional_ts_member(br#"{"ts": true}"#).is_none());
    assert!(read_optional_ts_member(br#"[]"#).is_none());
    assert_eq!(ts_of(r#"{}"#), None);
}
