use vkclient::{
    decode_longpoll_response, Compression, Encoding, LongPollError, LongPollRequest,
    LongPollSession, LongPollSuccess, ResponseDeserialize, VkApiBuilder, VkApiError, Version,
};

fn request(server: &str) -> LongPollRequest {
    LongPollRequest {
        server: server.to_string(),
        key: "abc".to_string(),
        ts: "4".to_string(),
        wait: 25,
        additional_params: vec![("mode".to_string(), "2".to_string())],
    }
}

fn poll(body: &str) -> Result<LongPollSuccess<vkclient::Document>, VkApiError> {
    decode_longpoll_response(Some("application/json"), None, body.as_bytes())
}

#[test]
fn scripted_subscription() {
    let mut session = LongPollSession::new(request("lp.vk.com/wh1"));
    let script = [
        r#"{"failed": 1, "ts": "5"}"#,
        r#"{"ts": "6", "updates": [{"type": "u1"}, {"type": "u2"}]}"#,
        r#"{"failed": 2}"#,
    ];
    let mut urls = Vec::new();
    let mut yielded = Vec::new();
    let mut polls = 0;
    while let Some(next) = session.next_poll() {
        urls.push(next.url.clone());
        let items = session.advance(poll(script[polls]));
        polls += 1;
        if polls == 1 {
            assert!(items.is_empty());
            assert_eq!(session.request().ts, "5");
        }
        yielded.extend(items);
    }
    assert_eq!(polls, 3);
    assert!(session.is_terminated());
    assert!(session.next_poll().is_none());
    assert_eq!(yielded.len(), 3);
    assert_eq!(yielded[0].as_ref().unwrap().json, br#"{"type": "u1"}"#.to_vec());
    assert_eq!(yielded[1].as_ref().unwrap().json, br#"{"type": "u2"}"#.to_vec());
    match &yielded[2] {
        Err(VkApiError::LongPoll(e)) => {
            assert_eq!(e.failed, 2);
            assert!(e.ts.is_none());
        }
        other => panic!("unexpected {:?}", other),
    }
    assert_eq!(
        urls,
        vec![
            "https://lp.vk.com/wh1?act=a_check&key=abc&ts=4&wait=25&mode=2".to_string(),
            "https://lp.vk.com/wh1?act=a_check&key=abc&ts=5&wait=25&mode=2".to_string(),
            "https://lp.vk.com/wh1?act=a_check&key=abc&ts=6&wait=25&mode=2".to_string(),
        ]
    );
    assert_eq!(session.request().ts, "6");
}

#[test]
fn transport_error_ends_subscription() {
    let mut session = LongPollSession::new(request("https://lp.vk.com/wh1"));
    let next = session.next_poll().unwrap();
    assert_eq!(next.accept_encoding, "gzip");
    assert_eq!(next.accept, "application/json");
    assert!(next.form.is_none());
    assert!(next.url.starts_with("https://lp.vk.com/wh1?act=a_check&"));
    let items = session.advance::<vkclient::Document>(Err(VkApiError::Request("connection reset".to_string())));
    assert_eq!(items.len(), 1);
    assert!(matches!(items[0], Err(VkApiError::Request(_))));
    assert!(session.is_terminated());
    assert!(session.next_poll().is_none());
}

#[test]
fn numeric_and_text_ts_give_the_same_cursor() {
    let a = poll(r#"{"ts": 123, "updates": []}"#).unwrap();
    let b = poll(r#"{"ts": "123", "updates": []}"#).unwrap();
    assert_eq!(a.ts(), "123");
    assert_eq!(a.ts(), b.ts());
    let e = poll(r#"{"failed": 2, "ts": 123}"#);
    match e {
        Err(VkApiError::LongPoll(e)) => assert_eq!(e.ts, Some("123".to_string())),
        other => panic!("unexpected {:?}", other),
    }
}

#[test]
fn longpoll_error_fields_and_shapes() {
    match poll(r#"{"failed": 4, "min_version": 0, "max_version": 3}"#) {
        Err(VkApiError::LongPoll(e)) => {
            assert_eq!(e.failed, 4);
            assert_eq!(e.min_version, Some(0));
            assert_eq!(e.max_version, Some(3));
            assert_eq!(e.to_message(), "long poll error occured, code: 4");
        }
        other => panic!("unexpected {:?}", other),
    }
    for body in [
        r#"{"ts": "1", "updates": [], "failed": 1}"#,
        r#"{"ts": "1"}"#,
        r#"{"failed": "x"}"#,
        r#"{"ts": "1", "updates": {}}"#,
        r#"{"ts": "1", "updates": [], "failed": "x"}"#,
        r#"{"updates": [], "failed": 1, "ts": "1"}"#,
    ] {
        assert!(matches!(
            poll(body),
            Err(VkApiError::ResponseDeserialize(ResponseDeserialize::Json))
        ));
    }
}

#[test]
fn recoverable_error_keeps_session_open() {
    let mut session = LongPollSession::new(request("lp.vk.com"));
    let e = LongPollError {
        failed: 1,
        ts: Some("77".to_string()),
        min_version: None,
        max_version: None,
    };
    let items = session.advance::<vkclient::Document>(Err(VkApiError::LongPoll(e)));
    assert!(items.is_empty());
    assert!(!session.is_terminated());
    assert_eq!(session.request().ts, "77");
    assert_eq!(session.request().key, "abc");
}

#[test]
fn builder_defaults_and_call_preparation() {
    let config = VkApiBuilder::new("tok".to_string()).build();
    assert_eq!(config.encoding, Compression::Zstd);
    assert_eq!(config.format, Encoding::Msgpack);
    assert_eq!(config.version, Version(5, 131));
    assert_eq!(config.domain, "api.vk.com");
    let params = vec![
        ("user_ids".to_string(), "1,2".to_string()),
        ("fields".to_string(), "first name".to_string()),
    ];
    let call = config.prepare_call("users.get", &params, config.version);
    assert_eq!(call.url, "https://api.vk.com/method/users.get.msgpack");
    assert_eq!(call.accept_encoding, "zstd");
    assert_eq!(call.accept, "application/x-msgpack");
    assert_eq!(call.authorization, Some("Bearer tok".to_string()));
    assert_eq!(
        call.form,
        Some("v=5.131&access_token=tok&user_ids=1%2C2&fields=first+name".to_string())
    );
}

#[test]
fn builder_setters() {
    let config = VkApiBuilder::new("a".to_string())
        .with_access_token("b".to_string())
        .with_version(Version(5, 199))
        .with_domain("api.example.com".to_string())
        .with_compression(Compression::Identity)
        .with_encoding(Encoding::Json)
        .build();
    assert_eq!(config.access_token, "b");
    assert_eq!(config.version, Version(5, 199));
    let call = config.prepare_call("groups.get", &Vec::new(), Version(5, 100));
    assert_eq!(call.url, "https://api.example.com/method/groups.get");
    assert_eq!(call.accept_encoding, "identity");
    assert_eq!(call.accept, "application/json");
    assert_eq!(call.form, Some("v=5.100&access_token=b".to_string()));
    let text = VkApiBuilder::new("a".to_string()).with_encoding(Encoding::Text).build();
    assert_eq!(text.method_url("x"), "https://api.vk.com/method/x");
    assert_eq!(Encoding::Text.accept(), "text/*");
    assert_eq!(Compression::Gzip.accept_encoding(), "gzip");
}

#[test]
fn scheme_prefix_only_for_bare_hosts() {
    let bare = request("httpbin.org/lp").poll_url();
    assert!(bare.starts_with("https://httpbin.org/lp?act=a_check&"), "{}", bare);
    let plain = request("http://lp.vk.com/wh1").poll_url();
    assert!(plain.starts_with("http://lp.vk.com/wh1?act=a_check&"), "{}", plain);
    let secure = request("https://lp.vk.com/wh1").poll_url();
    assert!(secure.starts_with("https://lp.vk.com/wh1?act=a_check&"), "{}", secure);
    let host = request("lp.vk.com/wh1").poll_url();
    assert!(host.starts_with("https://lp.vk.com/wh1?act=a_check&"), "{}", host);
}
