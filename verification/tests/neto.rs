use neto::config::build_header_map;
use neto::data::{Body, Caps, Http};
use neto::errors::HttpError;
use neto::request::Method;
use neto::url::compose;

fn dummy_client() -> reqwest::Client {
    reqwest::Client::new()
}

#[test]
fn http_builder_basic() {
    let headers = vec![
        ("authorization".to_string(), "Bearer token".to_string()),
        ("content-type".to_string(), "application/json".to_string()),
    ];

    let http = Http::new()
        .base_url("https://example.com")
        .headers(headers.clone())
        .client(dummy_client())
        .build()
        .expect("Failed to build Http");

    assert_eq!(http.base_url, "https://example.com");
    assert_eq!(http.headers, headers);
}

#[test]
fn http_builder_missing_field_fails() {
    let result = Http::new().headers(vec![]).client(dummy_client()).build();

    assert!(result.is_err(), "Expected error when base_url is missing");
}

#[test]
fn http_builder_invalid_url_fails() {
    let headers = vec![("user-agent".to_string(), "test-agent".to_string())];

    let result = Http::new()
        .base_url("not a url")
        .headers(headers)
        .client(dummy_client())
        .build();

    let err_msg = result.unwrap_err().message();
    assert!(
        err_msg.contains("Invalid URL format"),
        "Expected 'Invalid URL format' error, got: {}",
        err_msg
    );
}

#[test]
fn build_accepts_pattern_urls() {
    let urls = [
        "https://example.com",
        "http://example.com",
        "example.com",
        "a.bc",
        "https://pokeapi.co/api/v2",
        "http://a-b.c-d.ef/",
        "sub.domain.example.org/path/with?things=1#frag",
        "http://a.com//doubled",
        "https://example.com/",
    ];
    for url in urls {
        let r = Http::new().base_url(url).headers(vec![]).build();
        assert!(r.is_ok(), "expected {:?} to build", url);
    }
}

#[test]
fn build_rejects_non_pattern_urls() {
    let urls = [
        "",
        "not a url",
        "http://",
        "https://",
        "localhost",
        "http://localhost",
        "a.c",
        "a..com",
        ".com",
        "-",
        "ftp://a.com",
        "http:/a.com",
        "a.com\nx",
        "http://a.com/pa\nth",
        "http://a.com:8080",
    ];
    for url in urls {
        let r = Http::new().base_url(url).headers(vec![]).build();
        match r {
            Err(HttpError::InvalidUrl) => {}
            other => panic!("expected {:?} to be refused as invalid, got {:?}", url, other),
        }
    }
}

#[test]
fn build_without_base_url_reports_the_field() {
    let r = Http::new().headers(vec![]).build();
    match r {
        Err(HttpError::MissingField(f)) => {
            assert_eq!(f, "base_url");
        }
        other => panic!("expected MissingField, got {:?}", other),
    }
}

#[test]
fn build_without_headers_reports_the_field() {
    let r = Http::new().base_url("https://example.com").build();
    match r {
        Err(HttpError::MissingField(f)) => {
            assert_eq!(f, "headers");
        }
        other => panic!("expected MissingField, got {:?}", other),
    }
}

#[test]
fn missing_field_message_names_the_field() {
    let err = Http::new().headers(vec![]).build().unwrap_err();
    assert_eq!(err.message(), "missing field: base_url");
}

#[test]
fn compose_join_cases() {
    assert_eq!(compose("http://a.com", "/x"), "http://a.com/x");
    assert_eq!(compose("http://a.com/", "x"), "http://a.com/x");
    assert_eq!(compose("http://a.com", "x"), "http://a.com/x");
    assert_eq!(compose("http://a.com/", "/x"), "http://a.com//x");
}

fn built_http() -> Http {
    Http::new()
        .base_url("https://example.com")
        .headers(vec![])
        .client(dummy_client())
        .build()
        .expect("Should build Http")
}

#[test]
fn encode_empty_body_is_noop() {
    let http = built_http();
    let rb = dummy_client().get("https://example.com/x");
    let out = http.body(rb, Body::Empty).expect("no capability needed");
    let req = out.build().expect("request should build");
    assert_eq!(req.method(), &reqwest::Method::GET);
    assert_eq!(req.url().as_str(), "https://example.com/x");
    assert!(req.body().is_none());
    assert!(req.headers().get("content-type").is_none());
}

#[test]
fn encode_form_body_urlencodes_pairs() {
    let http = built_http();
    let rb = dummy_client().put("https://example.com/x");
    let out = http
        .body(rb, Body::FORM(vec![("a".to_string(), "1".to_string())]))
        .expect("form needs no capability");
    let req = out.build().expect("request should build");
    assert_eq!(
        req.headers().get("content-type").unwrap(),
        "application/x-www-form-urlencoded"
    );
    let bytes = req.body().unwrap().as_bytes().unwrap();
    assert_eq!(bytes, b"a=1");
}

#[test]
fn encode_json_body_serializes_value() {
    let http = built_http();
    let rb = dummy_client().put("https://example.com/x");
    let value = serde_json::Value::Array(vec![
        serde_json::Value::from(1),
        serde_json::Value::String("two".to_string()),
    ]);
    let out = http.body(rb, Body::JSON(value)).expect("json capability present");
    let req = out.build().expect("request should build");
    assert_eq!(req.headers().get("content-type").unwrap(), "application/json");
    assert_eq!(req.body().unwrap().as_bytes().unwrap(), br#"[1,"two"]"#);
}

#[test]
fn encode_text_and_bytes_attach_verbatim() {
    let http = built_http();

    let rb = dummy_client().put("https://example.com/x");
    let out = http.body(rb, Body::TXT("hello".to_string())).unwrap();
    let req = out.build().unwrap();
    assert_eq!(req.body().unwrap().as_bytes().unwrap(), b"hello");

    let rb = dummy_client().put("https://example.com/x");
    let out = http.body(rb, Body::BYTES(vec![0u8, 1, 2])).unwrap();
    let req = out.build().unwrap();
    assert_eq!(req.body().unwrap().as_bytes().unwrap(), &[0u8, 1, 2]);
}

#[test]
fn encode_multipart_builds_sections() {
    let http = built_http();
    let rb = dummy_client().put("https://example.com/x");
    let parts = vec![("file".to_string(), vec![1u8, 2, 3], "a.bin".to_string())];
    let out = http.body(rb, Body::MULTIPART(parts)).expect("native capability present");
    let req = out.build().expect("request should build");
    let ct = req.headers().get("content-type").unwrap().to_str().unwrap();
    assert!(
        ct.starts_with("multipart/form-data; boundary="),
        "unexpected content type: {}",
        ct
    );
    assert!(req.body().is_some());
}

#[test]
fn encode_json_without_capability_fails() {
    let http = Http::new()
        .base_url("https://example.com")
        .headers(vec![])
        .caps(Caps { json: false, native: true })
        .client(dummy_client())
        .build()
        .unwrap();
    let rb = dummy_client().put("https://example.com/x");
    match http.body(rb, Body::JSON(serde_json::Value::Null)) {
        Err(HttpError::UnsupportedCapability(m)) => {
            assert_eq!(m, "JSON feature must be provided");
        }
        _ => panic!("expected UnsupportedCapability"),
    }
}

#[test]
fn encode_multipart_without_capability_fails() {
    let http = Http::new()
        .base_url("https://example.com")
        .headers(vec![])
        .caps(Caps { json: true, native: false })
        .client(dummy_client())
        .build()
        .unwrap();
    let rb = dummy_client().put("https://example.com/x");
    match http.body(rb, Body::MULTIPART(vec![])) {
        Err(HttpError::UnsupportedCapability(m)) => {
            assert!(m.contains("Multipart is not supported"));
        }
        _ => panic!("expected UnsupportedCapability"),
    }
}

#[test]
fn configure_replaces_client_keeps_rest() {
    let headers = vec![("user-agent".to_string(), "neto-http-test/1.0".to_string())];
    let mut http = Http::new()
        .base_url("https://example.com")
        .headers(headers.clone())
        .build()
        .expect("Should build Http");
    assert!(http.client.is_none());

    http.config().expect("Failed to configure Http with headers");
    assert!(http.client.is_some());
    assert_eq!(http.base_url, "https://example.com");
    assert_eq!(http.headers, headers);

    // a second call leaves the configuration as one call does
    http.config().expect("Failed to configure Http again");
    assert!(http.client.is_some());
    assert_eq!(http.base_url, "https://example.com");
    assert_eq!(http.headers, headers);
}

#[test]
fn configure_refuses_malformed_header_name() {
    let mut http = Http::new()
        .base_url("https://example.com")
        .headers(vec![("bad name".to_string(), "v".to_string())])
        .build()
        .unwrap();
    match http.config() {
        Err(HttpError::ClientBuildFailed) => {}
        other => panic!("expected ClientBuildFailed, got {:?}", other),
    }
    assert!(http.client.is_none());
}

#[test]
fn configure_refuses_malformed_header_value() {
    let mut http = Http::new()
        .base_url("https://example.com")
        .headers(vec![("name".to_string(), "bad\nvalue".to_string())])
        .build()
        .unwrap();
    match http.config() {
        Err(HttpError::ClientBuildFailed) => {}
        other => panic!("expected ClientBuildFailed, got {:?}", other),
    }
    assert!(http.client.is_none());
}

#[test]
fn header_map_lowercases_flags_and_keeps_last() {
    let headers = vec![
        ("X-Token".to_string(), "one".to_string()),
        ("x-token".to_string(), "two".to_string()),
        ("User-Agent".to_string(), "neto/1.0".to_string()),
    ];
    let map = build_header_map(&headers).expect("all headers are valid");
    assert_eq!(map.len(), 2);
    let token = map.get("x-token").expect("stored under the lowercased name");
    assert_eq!(token.to_str().unwrap(), "two");
    assert!(token.is_sensitive());
    let agent = map.get("user-agent").unwrap();
    assert_eq!(agent.to_str().unwrap(), "neto/1.0");
    assert!(agent.is_sensitive());
}

#[test]
fn header_map_refuses_invalid_value() {
    let r = build_header_map(&vec![("ok".to_string(), "bad\u{7f}value".to_string())]);
    match r {
        Err(HttpError::ClientBuildFailed) => {}
        other => panic!("expected ClientBuildFailed, got {:?}", other),
    }
}

#[test]
fn get_composes_url_and_empty_query() {
    let http = built_http();
    let prep = http.get("/status", Vec::new());
    assert_eq!(prep.method, Method::Get);
    assert_eq!(prep.url, "https://example.com/status");
    assert!(prep.query.is_empty());
    assert!(matches!(prep.body, Body::Empty));

    let rb = http.to_request(prep).expect("no capability needed");
    let req = rb.build().expect("request should build");
    assert_eq!(req.method(), &reqwest::Method::GET);
    assert_eq!(req.url().as_str(), "https://example.com/status");
    assert!(req.body().is_none());
}

#[test]
fn put_sends_query_and_text_body() {
    let http = built_http();
    let prep = http.put("/item", vec![("id", "7")], Body::TXT("hello".to_string()));
    assert_eq!(prep.method, Method::Put);
    assert_eq!(prep.url, "https://example.com/item");

    let rb = http.to_request(prep).expect("no capability needed");
    let req = rb.build().expect("request should build");
    assert_eq!(req.method(), &reqwest::Method::PUT);
    assert_eq!(req.url().as_str(), "https://example.com/item?id=7");
    assert_eq!(req.body().unwrap().as_bytes().unwrap(), b"hello");
}

#[test]
fn patch_carries_its_body() {
    let http = built_http();
    let prep = http.patch("/item", vec![("id", "7"), ("id", "8")], Body::BYTES(vec![9u8]));
    assert_eq!(prep.method, Method::Patch);

    let rb = http.to_request(prep).expect("no capability needed");
    let req = rb.build().expect("request should build");
    assert_eq!(req.method(), &reqwest::Method::PATCH);
    assert_eq!(req.url().as_str(), "https://example.com/item?id=7&id=8");
    assert_eq!(req.body().unwrap().as_bytes().unwrap(), &[9u8]);
}

#[test]
fn unsupported_body_is_refused_before_send() {
    let http = Http::new()
        .base_url("https://example.com")
        .headers(vec![])
        .caps(Caps { json: false, native: true })
        .client(dummy_client())
        .build()
        .unwrap();
    let prep = http.put("/item", vec![], Body::JSON(serde_json::Value::Null));
    match http.to_request(prep) {
        Err(HttpError::UnsupportedCapability(_)) => {}
        _ => panic!("expected UnsupportedCapability"),
    }
}
