use trace_moe::client::{Client, Method, PreparedRequest};
use trace_moe::error::ApiError;
use trace_moe::tracemoe::{new_client_with_key, SearchQuery, DEFAULT_BASE};

fn headers(p: &PreparedRequest) -> Vec<(String, String)> {
    p.headers.clone()
}

fn pair(a: &str, b: &str) -> (String, String) {
    (a.to_string(), b.to_string())
}

#[test]
fn new_rejects_a_relative_url() {
    match Client::new("not a url") {
        Err(ApiError::Url(e)) => assert_eq!(e, url::ParseError::RelativeUrlWithoutBase),
        other => panic!("unexpected {:?}", other.map(|_| ())),
    }
}

#[test]
fn new_client_has_no_key_and_no_headers() {
    let c = Client::new("https://example.com/api/").unwrap();
    let p = c.request(Method::Get, "me").unwrap();
    assert_eq!(p.url, "https://example.com/api/me");
    assert_eq!(p.method, Method::Get);
    assert!(p.headers.is_empty());
    assert!(p.bearer.is_none());
}

#[test]
fn base_url_is_normalized() {
    let c = Client::new("HTTPS://Example.COM").unwrap();
    assert_eq!(c.base_url(), "https://example.com/");
    let p = c.request(Method::Get, "x").unwrap();
    assert_eq!(p.url, "https://example.com/x");
}

#[test]
fn api_key_becomes_bearer() {
    let c = Client::new("https://example.com/").unwrap().with_api_key("secret".to_string());
    let p = c.request(Method::Post, "search").unwrap();
    assert_eq!(p.bearer.as_deref(), Some("secret"));
    assert_eq!(p.method, Method::Post);
}

#[test]
fn default_header_is_replaced_in_place() {
    let c = Client::new("https://example.com/")
        .unwrap()
        .with_default_header("a".to_string(), "1".to_string())
        .with_default_header("b".to_string(), "2".to_string())
        .with_default_header("a".to_string(), "3".to_string());
    let p = c.request(Method::Get, "").unwrap();
    assert_eq!(headers(&p), vec![pair("a", "3"), pair("b", "2")]);
    assert_eq!(p.url, "https://example.com/");
}

#[test]
fn absolute_path_replaces_base() {
    let c = Client::new("https://example.com/api/v1/").unwrap();
    let p = c.request(Method::Get, "/root").unwrap();
    assert_eq!(p.url, "https://example.com/root");
}

#[test]
fn unresolvable_path_is_a_url_error() {
    let c = Client::new("https://example.com/").unwrap();
    assert!(matches!(c.request(Method::Get, "http://[::1"), Err(ApiError::Url(_))));
}

#[test]
fn client_with_key_sends_key_header() {
    let c = new_client_with_key(Some("abc")).unwrap();
    let p = c.me_request().unwrap();
    assert_eq!(p.url, "https://api.trace.moe/me");
    assert_eq!(headers(&p), vec![pair("x-trace-key", "abc")]);
    assert!(p.bearer.is_none());
}

#[test]
fn client_without_key_sends_no_header() {
    let c = new_client_with_key(None).unwrap();
    assert_eq!(c.base_url(), DEFAULT_BASE);
    let p = c.search_upload_request().unwrap();
    assert_eq!(p.url, "https://api.trace.moe/search");
    assert_eq!(p.method, Method::Post);
    assert!(p.headers.is_empty());
    assert_eq!(DEFAULT_BASE, "https://api.trace.moe/");
}

#[test]
fn search_by_url_request_carries_query() {
    let c = new_client_with_key(None).unwrap();
    let q = SearchQuery {
        url: Some("https://images.plurk.com/32B15UXxymfSMwKGTObY5e.jpg".to_string()),
        anilist_id: None,
        cut_borders: Some(true),
        anilist_info: Some(false),
    };
    let p = c.search_by_url_request(&q).unwrap();
    assert_eq!(p.method, Method::Get);
    assert_eq!(
        p.url,
        "https://api.trace.moe/search?url=https%3A%2F%2Fimages.plurk.com%2F32B15UXxymfSMwKGTObY5e.jpg&cut_borders="
    );
}

#[test]
fn success_statuses_keep_the_body() {
    for s in [200u16, 201, 204, 299] {
        match Client::check_status(s, "{}".to_string()) {
            Ok(b) => assert_eq!(b, "{}"),
            Err(_) => panic!("status {} should succeed", s),
        }
    }
}

#[test]
fn other_statuses_are_http_errors() {
    for s in [100u16, 199, 300, 404, 429, 500] {
        match Client::check_status(s, "busy".to_string()) {
            Err(ApiError::Http { status, body }) => {
                assert_eq!(status, s);
                assert_eq!(body, "busy");
            }
            _ => panic!("status {} should fail", s),
        }
    }
}

#[test]
fn setting_a_header_leaves_one_entry_of_that_name() {
    let c = Client::new("https://example.com/")
        .unwrap()
        .with_default_header("x-a".to_string(), "1".to_string())
        .with_default_header("x-a".to_string(), "2".to_string())
        .with_default_header("x-a".to_string(), "é\tz".to_string());
    let p = c.clone().request(Method::Get, "q").unwrap();
    assert_eq!(headers(&p), vec![pair("x-a", "é\tz")]);
    assert_eq!(c.base_url(), "https://example.com/");
}
