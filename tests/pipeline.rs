use std::collections::BTreeMap;
use std::io::Write;

use vkclient::{
    decode_api_response, decode_body, decode_longpoll_response, decode_upload_response, uncompress,
    Encoding, ResponseDeserialize, VkApiError,
};

fn gzip(data: &[u8]) -> Vec<u8> {
    let mut enc = flate2::write::GzEncoder::new(Vec::new(), flate2::Compression::default());
    enc.write_all(data).unwrap();
    enc.finish().unwrap()
}

fn zstd_compress(data: &[u8]) -> Vec<u8> {
    zstd::stream::encode_all(data, 0).unwrap()
}

fn sample_payload() -> BTreeMap<String, String> {
    let mut m = BTreeMap::new();
    m.insert("first_name".to_string(), "Pavel".to_string());
    m.insert("last_name".to_string(), "Durov".to_string());
    m
}

fn envelope_bytes(format: Encoding, payload: &BTreeMap<String, String>) -> Vec<u8> {
    let mut env = BTreeMap::new();
    env.insert("response".to_string(), payload.clone());
    match format {
        Encoding::Msgpack => rmp_serde::to_vec_named(&env).unwrap(),
        _ => serde_json::to_vec(&env).unwrap(),
    }
}

fn content_type_of(format: Encoding) -> &'static str {
    match format {
        Encoding::Msgpack => "application/x-msgpack",
        _ => "application/json; charset=utf-8",
    }
}

fn round_trip(format: Encoding, coding: &str) {
    let payload = sample_payload();
    let plain = envelope_bytes(format, &payload);
    let body = match coding {
        "gzip" => gzip(&plain),
        "zstd" => zstd_compress(&plain),
        _ => plain.clone(),
    };
    let doc = decode_api_response(Some(content_type_of(format)), Some(coding), &body).unwrap();
    assert_eq!(doc.format, format);
    let decoded: BTreeMap<String, String> = serde_json::from_slice(&doc.json).unwrap();
    assert_eq!(decoded, payload);
}

#[test]
fn round_trip_json_identity() {
    round_trip(Encoding::Json, "identity");
}

#[test]
fn round_trip_json_gzip() {
    round_trip(Encoding::Json, "gzip");
}

#[test]
fn round_trip_json_zstd() {
    round_trip(Encoding::Json, "zstd");
}

#[test]
fn round_trip_msgpack_identity() {
    round_trip(Encoding::Msgpack, "identity");
}

#[test]
fn round_trip_msgpack_gzip() {
    round_trip(Encoding::Msgpack, "gzip");
}

#[test]
fn round_trip_msgpack_zstd() {
    round_trip(Encoding::Msgpack, "zstd");
}

#[test]
fn identity_or_missing_encoding_passes_through() {
    let body = br#"{"response": 7}"#;
    let a = decode_api_response(Some("application/json"), Some("identity"), body).unwrap();
    let b = decode_api_response(Some("application/json"), None, body).unwrap();
    assert_eq!(a.json, b"7".to_vec());
    assert_eq!(b.json, b"7".to_vec());
    assert_eq!(uncompress(Some("identity"), body).unwrap(), body.to_vec());
    assert_eq!(uncompress(Some("br"), body).unwrap(), body.to_vec());
}

#[test]
fn unknown_content_type_is_bad_encoding() {
    let body = br#"{"response": 1}"#;
    for ct in [Some("text/html"), Some("text/plain"), None, Some("application/jso")] {
        let r = decode_api_response(ct, None, body);
        assert!(matches!(
            r,
            Err(VkApiError::ResponseDeserialize(ResponseDeserialize::BadEncoding))
        ));
        let p = decode_longpoll_response(ct, None, body);
        assert!(matches!(
            p,
            Err(VkApiError::ResponseDeserialize(ResponseDeserialize::BadEncoding))
        ));
    }
    // even with a body that would not decompress
    let r = decode_api_response(Some("text/html"), Some("zstd"), b"not zstd at all");
    assert!(matches!(
        r,
        Err(VkApiError::ResponseDeserialize(ResponseDeserialize::BadEncoding))
    ));
}

#[test]
fn business_error_is_reported() {
    let body = br#"{"error": {"error_code": 5, "error_msg": "access denied"}}"#;
    match decode_api_response(Some("application/json"), None, body) {
        Err(VkApiError::Vk(e)) => {
            assert_eq!(e.code(), 5);
            assert_eq!(e.msg(), "access denied");
            assert_eq!(
                e.to_message(),
                "vk api error occurred. Code: 5, message: access denied"
            );
        }
        other => panic!("unexpected {:?}", other),
    }
}

#[test]
fn business_error_through_msgpack_and_gzip() {
    let mut inner = BTreeMap::new();
    inner.insert("error_code".to_string(), rmp_value_int(-3));
    inner.insert("error_msg".to_string(), rmp_value_text("bad"));
    let mut env = BTreeMap::new();
    env.insert("error".to_string(), inner);
    let body = gzip(&rmp_serde::to_vec_named(&env).unwrap());
    match decode_api_response(Some("application/x-msgpack"), Some("gzip"), &body) {
        Err(VkApiError::Vk(e)) => {
            assert_eq!(e.code(), -3);
            assert_eq!(e.msg(), "bad");
        }
        other => panic!("unexpected {:?}", other),
    }
}

fn rmp_value_int(n: i64) -> serde_json::Value {
    serde_json::Value::from(n)
}

fn rmp_value_text(s: &str) -> serde_json::Value {
    serde_json::Value::from(s)
}

#[test]
fn ambiguous_or_shapeless_envelopes_are_malformed() {
    let both = br#"{"response": 1, "error": {"error_code": 5, "error_msg": "x"}}"#;
    let neither = br#"{"result": 1}"#;
    let not_object = br#"[1, 2]"#;
    let bad_code = br#"{"error": {"error_code": 40000, "error_msg": "x"}}"#;
    let syntax = br#"{"response": "#;
    for body in [&both[..], &neither[..], &not_object[..], &bad_code[..], &syntax[..]] {
        let r = decode_api_response(Some("application/json"), None, body);
        assert!(
            matches!(r, Err(VkApiError::ResponseDeserialize(ResponseDeserialize::Json))),
            "{:?}",
            r
        );
    }
    let r = decode_api_response(Some("application/x-msgpack"), None, &[0xc1]);
    assert!(matches!(
        r,
        Err(VkApiError::ResponseDeserialize(ResponseDeserialize::MsgPack))
    ));
    let arr = rmp_serde::to_vec(&vec![1u8, 2]).unwrap();
    let r = decode_api_response(Some("application/x-msgpack"), None, &arr);
    assert!(matches!(
        r,
        Err(VkApiError::ResponseDeserialize(ResponseDeserialize::MsgPack))
    ));
}

#[test]
fn corrupt_compression_is_a_malformed_body() {
    let r = decode_api_response(Some("application/json"), Some("gzip"), b"plain text");
    assert!(matches!(
        r,
        Err(VkApiError::ResponseDeserialize(ResponseDeserialize::Json))
    ));
    let r = decode_api_response(Some("application/x-msgpack"), Some("zstd"), b"plain text");
    assert!(matches!(
        r,
        Err(VkApiError::ResponseDeserialize(ResponseDeserialize::MsgPack))
    ));
    assert!(matches!(uncompress(Some("gzip"), b"plain text"), Err(VkApiError::IO(_))));
}

#[test]
fn response_beside_malformed_error_is_malformed() {
    let body = br#"{"response": 1, "error": "oops"}"#;
    let r = decode_api_response(Some("application/json"), None, body);
    assert!(matches!(
        r,
        Err(VkApiError::ResponseDeserialize(ResponseDeserialize::Json))
    ));
    let lone_bad_error = br#"{"error": {"error_code": "five"}}"#;
    let r = decode_api_response(Some("application/json"), None, lone_bad_error);
    assert!(matches!(
        r,
        Err(VkApiError::ResponseDeserialize(ResponseDeserialize::Json))
    ));
}

#[test]
fn decompression_undoes_each_coding() {
    let data = b"hello, long poll".to_vec();
    assert_eq!(uncompress(Some("gzip"), &gzip(&data)).unwrap(), data);
    assert_eq!(uncompress(Some("zstd"), &zstd_compress(&data)).unwrap(), data);
}

#[test]
fn msgpack_body_is_rendered_as_json() {
    let mut m = BTreeMap::new();
    m.insert("a".to_string(), 1u32);
    let body = rmp_serde::to_vec_named(&m).unwrap();
    let doc = decode_body(Some("application/x-msgpack"), &body).unwrap();
    assert_eq!(doc.format, Encoding::Msgpack);
    assert_eq!(doc.json, br#"{"a":1}"#.to_vec());
}

#[test]
fn upload_reply_is_text() {
    let text = "{\"photo\": \"x\"}";
    assert_eq!(decode_upload_response(None, text.as_bytes()).unwrap(), text);
    assert_eq!(
        decode_upload_response(Some("gzip"), &gzip(text.as_bytes())).unwrap(),
        text
    );
    assert!(matches!(
        decode_upload_response(None, &[0xff, 0xfe]),
        Err(VkApiError::IO(_))
    ));
}

#[test]
fn error_messages() {
    assert_eq!(
        VkApiError::ResponseDeserialize(ResponseDeserialize::BadEncoding).to_message(),
        "vk api bad encoding or compression returned"
    );
    assert_eq!(VkApiError::Request("timed out".to_string()).to_message(), "timed out");
}
