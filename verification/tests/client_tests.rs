use reqwest::Body;
use reqwest::Client;
use reqwest::Headers;
use reqwest::Kind;
use reqwest::Method;
use reqwest::Url;

#[test]
fn basic_get_request() {
    let client = Client::new().unwrap();
    let some_url = "https://google.com/";
    let r = client.get(some_url);

    assert_eq!(r.method, Method::Get);
    assert_eq!(r.url, Url::parse(some_url));
}

#[test]
fn basic_head_request() {
    let client = Client::new().unwrap();
    let some_url = "https://google.com/";
    let r = client.head(some_url);

    assert_eq!(r.method, Method::Head);
    assert_eq!(r.url, Url::parse(some_url));
}

#[test]
fn basic_post_request() {
    let client = Client::new().unwrap();
    let some_url = "https://google.com/";
    let r = client.post(some_url);

    assert_eq!(r.method, Method::Post);
    assert_eq!(r.url, Url::parse(some_url));
}

#[test]
fn basic_put_request() {
    let client = Client::new().unwrap();
    let some_url = "https://google.com";
    let r = client.put(some_url);

    assert_eq!(r.method, Method::Put);
    assert_eq!(r.url, Url::parse(some_url));
}

#[test]
fn basic_patch_request() {
    let client = Client::new().unwrap();
    let some_url = "https://google.com";
    let r = client.patch(some_url);

    assert_eq!(r.method, Method::Patch);
    assert_eq!(r.url, Url::parse(some_url));
}

#[test]
fn basic_delete_request() {
    let client = Client::new().unwrap();
    let some_url = "https://google.com";
    let r = client.delete(some_url);

    assert_eq!(r.method, Method::Delete);
    assert_eq!(r.url, Url::parse(some_url));
}

#[test]
fn add_header() {
    let client = Client::new().unwrap();
    let some_url = "https://google.com/";
    let mut r = client.post(some_url);

    // Add the header to the request builder
    r = r.header("Host", "google.com");

    // then check it was actually added
    assert_eq!(r.headers.get_first("Host"), Some("google.com".to_string()));
}

#[test]
fn add_headers() {
    let client = Client::new().unwrap();
    let some_url = "https://google.com/";
    let mut r = client.post(some_url);

    let mut headers = Headers::new();
    headers.append("Host", "google.com");

    // Add a copy of the headers to the request builder
    r = r.headers(headers.clone());

    // then make sure they were added correctly
    assert_eq!(r.headers, headers);
}

#[test]
fn add_body() {
    let client = Client::new().unwrap();
    let some_url = "https://google.com/";
    let mut r = client.post(some_url);

    let body = "Some interesting content";

    r = r.body(Body::from_text(body));

    let stored = r.body.unwrap().unwrap();
    assert_eq!(stored.as_bytes().unwrap().as_slice(), body.as_bytes());
}

#[test]
fn add_form() {
    let client = Client::new().unwrap();
    let some_url = "https://google.com/";
    let mut r = client.post(some_url);

    let form_data = vec![("foo".to_string(), "bar".to_string())];

    r = r.form(&form_data);

    // Make sure the content type was set
    assert_eq!(
        r.headers.get_first("Content-Type"),
        Some("application/x-www-form-urlencoded".to_string())
    );

    let stored = r.body.unwrap().unwrap();
    let body_should_be = serde_urlencoded::to_string(&form_data).unwrap();
    assert_eq!(stored.as_bytes().unwrap().as_slice(), body_should_be.as_bytes());
}

#[test]
fn add_json() {
    let client = Client::new().unwrap();
    let some_url = "https://google.com/";
    let mut r = client.post(some_url);

    let json_data = vec![("foo".to_string(), "bar".to_string())];

    r = r.json(&json_data);

    // Make sure the content type was set
    assert_eq!(r.headers.get_first("Content-Type"), Some("application/json".to_string()));

    let mut object = serde_json::Map::new();
    object.insert("foo".to_string(), serde_json::Value::String("bar".to_string()));
    let body_should_be = serde_json::to_vec(&serde_json::Value::Object(object)).unwrap();
    let stored = r.body.unwrap().unwrap();
    assert_eq!(stored.as_bytes().unwrap().as_slice(), body_should_be.as_slice());
}

#[test]
fn form_sets_exact_body() {
    let client = Client::new().unwrap();
    let r = client.post("http://a/1").form(&vec![("a".to_string(), "b".to_string())]);
    let stored = r.body.unwrap().unwrap();
    assert_eq!(stored.as_bytes().unwrap().as_slice(), b"a=b");
}

#[test]
fn json_sets_exact_body() {
    let client = Client::new().unwrap();
    let r = client.post("http://a/1").json(&vec![("a".to_string(), "b".to_string())]);
    let stored = r.body.unwrap().unwrap();
    assert_eq!(stored.as_bytes().unwrap().as_slice(), b"{\"a\":\"b\"}");
}

#[test]
fn prepare_applies_default_headers_once() {
    let client = Client::new().unwrap();
    let state = client.get("http://a/1").prepare().unwrap();
    assert_eq!(state.headers.get_first("User-Agent"), Some("reqwest/0.2.0".to_string()));
    assert_eq!(state.headers.get_first("Accept"), Some("*/*".to_string()));
    assert_eq!(state.headers.get_first("Accept-Encoding"), Some("gzip".to_string()));
    assert_eq!(state.headers.len(), 3);
}

#[test]
fn prepare_keeps_explicit_headers() {
    let client = Client::new().unwrap();
    let state = client
        .get("http://a/1")
        .header("User-Agent", "custom-agent")
        .header("Accept", "text/plain")
        .header("Range", "bytes=0-99")
        .prepare()
        .unwrap();
    assert_eq!(state.headers.get_first("User-Agent"), Some("custom-agent".to_string()));
    assert_eq!(state.headers.get_first("Accept"), Some("text/plain".to_string()));
    // Range is set, so no Accept-Encoding default is added.
    assert_eq!(state.headers.get_first("Accept-Encoding"), None);
}

#[test]
fn prepare_without_gzip_skips_accept_encoding() {
    let mut client = Client::new().unwrap();
    client.gzip(false);
    let state = client.get("http://a/1").prepare().unwrap();
    assert_eq!(state.headers.get_first("Accept-Encoding"), None);
}

#[test]
fn prepare_surfaces_bad_url() {
    let client = Client::new().unwrap();
    let err = client.get("not a url").prepare().unwrap_err();
    assert!(matches!(err.kind(), Kind::Http(_)));
    assert!(err.url().is_none());
}

#[test]
fn error_descriptions() {
    let too_many = reqwest::error::too_many_redirects(Url::parse("http://a/1").unwrap());
    assert_eq!(too_many.description(), "Too many redirects");
    assert_eq!(too_many.url().as_ref().unwrap().as_str(), "http://a/1");

    let looped = reqwest::error::loop_detected(Url::parse("http://a/1").unwrap());
    assert_eq!(looped.description(), "Infinite redirect loop");

    let encoding = reqwest::error::from(Kind::UrlEncoded("bad form".to_string()));
    assert_eq!(encoding.description(), "bad form");
    assert!(encoding.url().is_none());

    let json = reqwest::error::from(Kind::Json("bad json".to_string()));
    assert_eq!(json.description(), "bad json");
}

#[test]
fn url_parse_normalizes() {
    let url = Url::parse("https://google.com").unwrap();
    assert_eq!(url.as_str(), "https://google.com/");
    assert!(Url::parse("not a url").is_err());
}

#[test]
fn url_join_resolves_relative_references() {
    let base = Url::parse("http://a/1").unwrap();
    assert_eq!(base.join("/2").unwrap().as_str(), "http://a/2");
    assert_eq!(base.join("http://b/x").unwrap().as_str(), "http://b/x");
}

#[test]
fn url_host() {
    assert_eq!(Url::parse("http://bar/baz").unwrap().host_str(), Some("bar".to_string()));
}

#[test]
fn headers_are_case_insensitive_multimaps() {
    let mut h = Headers::new();
    h.append("X-Token", "one");
    h.append("x-token", "two");
    assert_eq!(h.len(), 2);
    assert_eq!(h.get_first("X-TOKEN"), Some("one".to_string()));
    assert!(h.contains_key("x-Token"));
    h.set("X-Token", "three");
    assert_eq!(h.len(), 1);
    assert_eq!(h.get_first("x-token"), Some("three".to_string()));
}
