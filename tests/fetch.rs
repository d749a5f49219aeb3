use runtime::dispatch::{is_redirection, Dispatch, FetchError, LocationHeader, Step};
use runtime::request::{
    Request, RequestBody, RequestBuilderInit, RequestCache, RequestError, RequestInfo, RequestInit,
    RequestMode, RequestRedirect,
};
use runtime::signal::Reason;

fn no_options() -> RequestInit {
    RequestInit {
        window_is_null: None,
        mode: None,
        credentials: None,
        cache: None,
        redirect: None,
        integrity: None,
        keepalive: None,
        signal: None,
        headers: None,
        body: None,
    }
}

fn build(url: &str, method: Option<&str>, init: RequestInit) -> Result<Request, RequestError> {
    Request::constructor(
        RequestInfo::String(url.to_string()),
        Some(RequestBuilderInit { method: method.map(|m| m.to_string()), init }),
    )
}

fn request(url: &str, method: &str, redirect: RequestRedirect, body: &[u8]) -> Request {
    let mut init = no_options();
    init.redirect = Some(redirect);
    init.headers = Some(vec![
        ("Content-Type".to_string(), "text/plain".to_string()),
        ("Host".to_string(), "old.test".to_string()),
        ("Accept".to_string(), "*/*".to_string()),
    ]);
    init.body = Some(RequestBody { bytes: body.to_vec(), kind: None });
    build(url, Some(method), init).unwrap()
}

fn header<'a>(r: &'a Request, name: &str) -> Vec<&'a str> {
    r.headers.iter().filter(|(n, _)| n.eq_ignore_ascii_case(name)).map(|(_, v)| v.as_str()).collect()
}

fn text(s: &str) -> LocationHeader {
    LocationHeader::Text(s.to_string())
}

#[test]
fn redirection_codes() {
    for s in [301u16, 302, 303, 307, 308] {
        assert!(is_redirection(s));
    }
    for s in [200u16, 300, 304, 305, 306, 400] {
        assert!(!is_redirection(s));
    }
}

#[test]
fn constructor_from_url_defaults() {
    let r = Request::constructor(RequestInfo::String("https://example.com/a".to_string()), None).unwrap();
    assert_eq!(r.method, "GET");
    assert_eq!(r.url, "https://example.com/a");
    assert_eq!(r.locations, vec!["https://example.com/a".to_string()]);
    assert_eq!(r.mode, RequestMode::Cors);
    assert_eq!(r.redirect, RequestRedirect::Follow);
    assert!(r.body.is_empty());
}

#[test]
fn constructor_rejects_bad_urls() {
    assert!(matches!(build("not a url", None, no_options()), Err(RequestError::InvalidUrl)));
    assert!(matches!(build("https://user:pw@example.com/", None, no_options()), Err(RequestError::UrlCredentials)));
}

#[test]
fn constructor_upper_cases_method() {
    let r = build("https://example.com/", Some("post"), no_options()).unwrap();
    assert_eq!(r.method, "POST");
}

#[test]
fn constructor_rejects_methods() {
    assert!(matches!(build("https://example.com/", Some("connect"), no_options()), Err(RequestError::ForbiddenMethod)));
    assert!(matches!(build("https://example.com/", Some("TRACE"), no_options()), Err(RequestError::ForbiddenMethod)));
    assert!(matches!(build("https://example.com/", Some("a b"), no_options()), Err(RequestError::InvalidMethod)));
    assert!(matches!(build("https://example.com/", Some(""), no_options()), Err(RequestError::InvalidMethod)));
}

#[test]
fn constructor_mode_rules() {
    let mut init = no_options();
    init.mode = Some(RequestMode::Navigate);
    assert!(matches!(build("https://example.com/", None, init), Err(RequestError::NavigateMode)));
    let mut init = no_options();
    init.mode = Some(RequestMode::NoCors);
    assert!(matches!(build("https://example.com/", Some("PUT"), init), Err(RequestError::NoCorsMethod)));
    let mut init = no_options();
    init.mode = Some(RequestMode::NoCors);
    assert_eq!(build("https://example.com/", Some("post"), init).unwrap().mode, RequestMode::NoCors);
    let mut init = no_options();
    init.cache = Some(RequestCache::OnlyIfCached);
    assert!(matches!(build("https://example.com/", None, init), Err(RequestError::OnlyIfCachedMode)));
    let mut init = no_options();
    init.cache = Some(RequestCache::OnlyIfCached);
    init.mode = Some(RequestMode::SameOrigin);
    assert!(build("https://example.com/", None, init).is_ok());
    let mut init = no_options();
    init.window_is_null = Some(false);
    assert!(matches!(build("https://example.com/", None, init), Err(RequestError::NonNullWindow)));
}

#[test]
fn constructor_from_request_keeps_fields() {
    let base = request("https://example.com/x", "PUT", RequestRedirect::Manual, b"abc");
    let r = Request::constructor(RequestInfo::Request(base), None).unwrap();
    assert_eq!(r.method, "PUT");
    assert_eq!(r.body, b"abc".to_vec());
    assert_eq!(r.redirect, RequestRedirect::Manual);
    assert!(r.unsafe_request);
}

#[test]
fn clone_resets_history() {
    let base = request("https://example.com/x", "POST", RequestRedirect::Follow, b"abc");
    let hop = base.normalize_for_redirect(307, "https://example.com/y", "example.com");
    let c = hop.clone();
    assert_eq!(c.url, "https://example.com/y");
    assert_eq!(c.locations, vec!["https://example.com/y".to_string()]);
    assert_eq!(c.body, b"abc".to_vec());
}

#[test]
fn post_found_becomes_get() {
    let base = request("https://example.com/x", "POST", RequestRedirect::Follow, b"abc");
    let hop = base.normalize_for_redirect(302, "https://other.test:8080/y", "other.test:8080");
    assert_eq!(hop.method, "GET");
    assert!(hop.body.is_empty());
    assert!(header(&hop, "content-type").is_empty());
    assert_eq!(header(&hop, "host"), vec!["other.test:8080"]);
    assert_eq!(header(&hop, "accept"), vec!["*/*"]);
    assert_eq!(hop.url, "https://other.test:8080/y");
    assert_eq!(hop.locations.len(), 2);
}

#[test]
fn post_temporary_redirect_keeps_body() {
    let base = request("https://example.com/x", "POST", RequestRedirect::Follow, b"abc");
    let hop = base.normalize_for_redirect(307, "https://example.com/y", "example.com");
    assert_eq!(hop.method, "POST");
    assert_eq!(hop.body, b"abc".to_vec());
    assert_eq!(header(&hop, "content-type"), vec!["text/plain"]);
}

#[test]
fn see_other_downgrades_put() {
    let base = request("https://example.com/x", "PUT", RequestRedirect::Follow, b"abc");
    let hop = base.normalize_for_redirect(303, "https://example.com/y", "example.com");
    assert_eq!(hop.method, "GET");
    assert!(hop.body.is_empty());
    let head = request("https://example.com/x", "HEAD", RequestRedirect::Follow, b"");
    assert_eq!(head.normalize_for_redirect(303, "https://example.com/y", "example.com").method, "HEAD");
}

fn expect_send(step: Step) -> Request {
    match step {
        Step::Send(r) => r,
        Step::Done(_) => panic!("unexpected end"),
        Step::Fail(e) => panic!("unexpected failure {:?}", e),
    }
}

#[test]
fn follows_redirects_to_the_end() {
    let req = request("http://a.test/start", "GET", RequestRedirect::Follow, b"");
    let (mut d, first) = Dispatch::start(&req);
    assert_eq!(first.url, "http://a.test/start");
    let hop = expect_send(d.on_response(301, text("/one")));
    assert_eq!(hop.url, "http://a.test/one");
    let hop = expect_send(d.on_response(302, text("http://b.test:81/two")));
    assert_eq!(hop.url, "http://b.test:81/two");
    assert_eq!(header(&hop, "host"), vec!["b.test:81"]);
    match d.on_response(200, LocationHeader::Missing) {
        Step::Done(resp) => {
            assert_eq!(resp.status, 200);
            assert_eq!(resp.redirections, 2);
            assert_eq!(
                resp.locations,
                vec!["http://a.test/start".to_string(), "http://a.test/one".to_string(), "http://b.test:81/two".to_string()]
            );
        }
        _ => panic!("expected a response"),
    }
}

#[test]
fn error_policy_rejects_first_redirect() {
    let req = request("http://a.test/", "POST", RequestRedirect::Error, b"x");
    let (mut d, _) = Dispatch::start(&req);
    assert!(matches!(d.on_response(301, text("/b")), Step::Fail(FetchError::RedirectPolicyViolation(301))));
}

#[test]
fn manual_policy_stops_at_redirect() {
    let req = request("http://a.test/", "GET", RequestRedirect::Manual, b"");
    let (mut d, _) = Dispatch::start(&req);
    match d.on_response(302, text("/b")) {
        Step::Done(resp) => {
            assert_eq!(resp.status, 302);
            assert_eq!(resp.redirections, 0);
            assert_eq!(resp.locations, vec!["http://a.test/".to_string()]);
        }
        _ => panic!("expected a response"),
    }
}

#[test]
fn body_on_moved_permanently_fails() {
    let req = request("http://a.test/", "PUT", RequestRedirect::Follow, b"x");
    let (mut d, _) = Dispatch::start(&req);
    assert!(matches!(d.on_response(301, text("/b")), Step::Fail(FetchError::RedirectWithBody(301))));
    let req = request("http://a.test/", "POST", RequestRedirect::Follow, b"x");
    let (mut d, _) = Dispatch::start(&req);
    assert!(matches!(d.on_response(308, text("/b")), Step::Fail(FetchError::RedirectWithBody(308))));
}

#[test]
fn post_with_body_fails_on_found() {
    for status in [301u16, 302, 307, 308] {
        let req = request("http://a.test/", "POST", RequestRedirect::Follow, b"x");
        let (mut d, _) = Dispatch::start(&req);
        assert!(matches!(d.on_response(status, text("/b")), Step::Fail(FetchError::RedirectWithBody(s)) if s == status));
    }
}

#[test]
fn post_without_body_follows_found_as_get() {
    let req = request("http://a.test/", "POST", RequestRedirect::Follow, b"");
    let (mut d, _) = Dispatch::start(&req);
    let hop = expect_send(d.on_response(302, text("/b")));
    assert_eq!(hop.method, "GET");
    assert!(hop.body.is_empty());
    assert!(header(&hop, "content-type").is_empty());
    assert_eq!(hop.url, "http://a.test/b");
}

#[test]
fn post_with_body_follows_see_other() {
    let req = request("http://a.test/", "POST", RequestRedirect::Follow, b"x");
    let (mut d, _) = Dispatch::start(&req);
    let hop = expect_send(d.on_response(303, text("/b")));
    assert_eq!(hop.method, "GET");
    assert!(hop.body.is_empty());
}

#[test]
fn twenty_one_redirects_fail() {
    let req = request("http://a.test/0", "GET", RequestRedirect::Follow, b"");
    let (mut d, _) = Dispatch::start(&req);
    for i in 1..=20 {
        let hop = expect_send(d.on_response(302, text(&format!("/{}", i))));
        assert_eq!(hop.url, format!("http://a.test/{}", i));
    }
    assert!(matches!(d.on_response(302, text("/21")), Step::Fail(FetchError::TooManyRedirects(20))));
}

#[test]
fn twenty_redirects_then_ok() {
    let req = request("http://a.test/0", "GET", RequestRedirect::Follow, b"");
    let (mut d, _) = Dispatch::start(&req);
    for i in 1..=20 {
        expect_send(d.on_response(307, text(&format!("/{}", i))));
    }
    match d.on_response(200, LocationHeader::Missing) {
        Step::Done(resp) => {
            assert_eq!(resp.redirections, 20);
            assert_eq!(resp.locations.len(), 21);
            assert_eq!(resp.locations[20], "http://a.test/20");
        }
        _ => panic!("expected a response"),
    }
}

#[test]
fn malformed_locations_fail() {
    let req = request("http://a.test/", "GET", RequestRedirect::Follow, b"");
    let (mut d, _) = Dispatch::start(&req);
    assert!(matches!(d.on_response(302, LocationHeader::Missing), Step::Fail(FetchError::MalformedLocation(ref t)) if t.is_empty()));
    assert!(matches!(d.on_response(302, LocationHeader::Unreadable), Step::Fail(FetchError::MalformedLocation(_))));
    assert!(matches!(d.on_response(302, text("http://[::1")), Step::Fail(FetchError::MalformedLocation(ref t)) if t == "http://[::1"));
    assert!(matches!(d.on_response(302, text("data:text/plain,x")), Step::Fail(FetchError::MalformedLocation(_))));
}

#[test]
fn errors_from_reasons() {
    assert!(matches!(FetchError::from_reason(Reason::Timeout(5)), FetchError::TimeoutError(5)));
    assert!(matches!(FetchError::from_reason(Reason::Aborted), FetchError::AbortError(Reason::Aborted)));
}

#[test]
fn constructor_serialises_url() {
    let r = Request::constructor(RequestInfo::String("HTTPS://Example.COM".to_string()), None).unwrap();
    assert_eq!(r.url, "https://example.com/");
    assert_eq!(r.locations, vec!["https://example.com/".to_string()]);
}

#[test]
fn constructor_rejects_text_that_is_no_uri() {
    assert!(matches!(build("http://example.com/a b", None, no_options()), Err(RequestError::InvalidUrl)));
    assert!(matches!(build("http://example.com/\u{e9}", None, no_options()), Err(RequestError::InvalidUrl)));
}

#[test]
fn clone_has_unused_body() {
    let mut base = request("https://example.com/x", "PUT", RequestRedirect::Follow, b"abc");
    base.body_used = true;
    let c = base.clone();
    assert!(!c.body_used);
    assert_eq!(c.body, b"abc".to_vec());
}

#[test]
fn authority_with_and_without_port() {
    assert_eq!(runtime::urls::authority("a.test", Some(8080)), "a.test:8080");
    assert_eq!(runtime::urls::authority("a.test", Some(0)), "a.test:0");
    assert_eq!(runtime::urls::authority("a.test", None), "a.test");
}

#[test]
fn options_left_out_keep_base_values() {
    let base = request("https://example.com/x", "PUT", RequestRedirect::Manual, b"abc");
    let r = Request::constructor(
        RequestInfo::Request(base),
        Some(RequestBuilderInit { method: None, init: no_options() }),
    )
    .unwrap();
    assert_eq!(r.redirect, RequestRedirect::Manual);
    assert_eq!(r.method, "PUT");
    assert_eq!(r.locations, vec!["https://example.com/x".to_string()]);
}

#[test]
fn method_token_characters() {
    assert_eq!(build("https://example.com/", Some("m-search"), no_options()).unwrap().method, "M-SEARCH");
    assert!(matches!(build("https://example.com/", Some("GET#"), no_options()), Err(RequestError::InvalidMethod)));
    assert!(matches!(build("https://example.com/", Some("G\u{e9}T"), no_options()), Err(RequestError::InvalidMethod)));
}
