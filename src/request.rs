//! The request entity: method, target, headers, body and policies.
use vstd::prelude::*;

use crate::signal::{AbortSignal, Signal};
use crate::text::{ascii_uppercase, ascii_upper, eq_ignore_case, text_eq, text_eq_ignore_case};
use crate::urls::{is_uri, parse_url, parsed_url, uri_valid};

verus! {

/// What to do with a redirection response.
#[derive(Clone, Copy, Debug, PartialEq, Eq, Structural)]
pub enum RequestRedirect {
    Follow,
    Error,
    Manual,
}

#[derive(Clone, Copy, Debug, PartialEq, Eq, Structural)]
pub enum RequestMode {
    SameOrigin,
    NoCors,
    Cors,
    Navigate,
}

#[derive(Clone, Copy, Debug, PartialEq, Eq, Structural)]
pub enum RequestCredentials {
    Omit,
    SameOrigin,
    Include,
}

#[derive(Clone, Copy, Debug, PartialEq, Eq, Structural)]
pub enum RequestCache {
    Default,
    NoStore,
    Reload,
    NoCache,
    ForceCache,
    OnlyIfCached,
}

/// A header list as (name, value) pairs of character sequences.
pub type HeadersView = Seq<(Seq<char>, Seq<char>)>;

pub open spec fn headers_view(h: Seq<(String, String)>) -> HeadersView {
    h.map_values(|p: (String, String)| (p.0@, p.1@))
}

pub open spec fn strings_view(v: Seq<String>) -> Seq<Seq<char>> {
    v.map_values(|s: String| s@)
}

/// `h` without the entries whose name is `name`, ignoring ASCII case; the
/// others keep their order.
pub open spec fn without_header(h: HeadersView, name: Seq<char>) -> HeadersView
    decreases h.len(),
{
    if h.len() == 0 {
        h
    } else {
        let rest = without_header(h.drop_last(), name);
        if eq_ignore_case(h.last().0, name) {
            rest
        } else {
            rest.push(h.last())
        }
    }
}

/// Whether `h` holds an entry named `name`, ignoring ASCII case.
pub open spec fn has_header(h: HeadersView, name: Seq<char>) -> bool {
    exists|i: int| 0 <= i < h.len() && eq_ignore_case(#[trigger] h[i].0, name)
}

pub fn copy_headers(h: &Vec<(String, String)>) -> (r: Vec<(String, String)>)
    ensures
        headers_view(r@) == headers_view(h@),
{
    let mut r: Vec<(String, String)> = Vec::new();
    let mut i: usize = 0;
    while i < h.len()
        invariant
            i <= h@.len(),
            r@ == h@.subrange(0, i as int),
        decreases h@.len() - i,
    {
        let name = h[i].0.clone();
        let value = h[i].1.clone();
        r.push((name, value));
        proof {
            assert(r@ =~= h@.subrange(0, i + 1));
        }
        i = i + 1;
    }
    proof {
        assert(r@ =~= h@);
    }
    r
}

pub fn copy_bytes(b: &Vec<u8>) -> (r: Vec<u8>)
    ensures
        r@ == b@,
{
    let mut r: Vec<u8> = Vec::new();
    let mut i: usize = 0;
    while i < b.len()
        invariant
            i <= b@.len(),
            r@ == b@.subrange(0, i as int),
        decreases b@.len() - i,
    {
        r.push(b[i]);
        proof {
            assert(r@ =~= b@.subrange(0, i + 1));
        }
        i = i + 1;
    }
    proof {
        assert(r@ =~= b@);
    }
    r
}

/// Removes every entry named `name`, ignoring ASCII case.
pub fn remove_header(h: &mut Vec<(String, String)>, name: &str)
    ensures
        headers_view(final(h)@) == without_header(headers_view(old(h)@), name@),
{
    let mut r: Vec<(String, String)> = Vec::new();
    let mut i: usize = 0;
    while i < h.len()
        invariant
            i <= h@.len(),
            h@ == old(h)@,
            headers_view(r@) == without_header(headers_view(h@).subrange(0, i as int), name@),
        decreases h@.len() - i,
    {
        let ghost hv = headers_view(h@);
        proof {
            assert(hv.subrange(0, i + 1).drop_last() =~= hv.subrange(0, i as int));
        }
        if !text_eq_ignore_case(h[i].0.as_str(), name) {
            let n = h[i].0.clone();
            let v = h[i].1.clone();
            r.push((n, v));
            proof {
                assert(headers_view(r@) =~= headers_view(r@.drop_last()).push(hv[i as int]));
            }
        }
        i = i + 1;
    }
    proof {
        assert(headers_view(h@).subrange(0, h@.len() as int) =~= headers_view(h@));
    }
    *h = r;
}

pub fn contains_header(h: &Vec<(String, String)>, name: &str) -> (r: bool)
    ensures
        r == has_header(headers_view(h@), name@),
{
    let mut i: usize = 0;
    while i < h.len()
        invariant
            i <= h@.len(),
            forall|j: int| 0 <= j < i ==> !eq_ignore_case(#[trigger] headers_view(h@)[j].0, name@),
        decreases h@.len() - i,
    {
        if text_eq_ignore_case(h[i].0.as_str(), name) {
            assert(eq_ignore_case(headers_view(h@)[i as int].0, name@));
            return true;
        }
        i = i + 1;
    }
    false
}

/// A fetch request.
pub struct Request {
    /// The method token, upper case.
    pub method: String,
    /// The current target, serialised.
    pub url: String,
    pub headers: Vec<(String, String)>,
    pub body: Vec<u8>,
    pub body_used: bool,
    /// The targets this request has had, first to last.
    pub locations: Vec<String>,
    pub mode: RequestMode,
    pub credentials: RequestCredentials,
    pub cache: RequestCache,
    pub redirect: RequestRedirect,
    pub integrity: String,
    pub unsafe_request: bool,
    pub keepalive: bool,
    pub reload_navigation: bool,
    pub history_navigation: bool,
    pub client_window: bool,
    pub signal: AbortSignal,
}

/// Whether a redirect with `status` turns a request with `method` into a GET
/// without a body.
pub open spec fn downgrades(status: u16, method: Seq<char>) -> bool {
    ((status == 301 || status == 302) && method == "POST"@) || (status == 303 && method != "GET"@
        && method != "HEAD"@)
}

/// `h` without the headers that describe a body.
pub open spec fn without_content_headers(h: HeadersView) -> HeadersView {
    without_header(
        without_header(
            without_header(without_header(h, "content-encoding"@), "content-language"@),
            "content-location"@,
        ),
        "content-type"@,
    )
}

/// Whether a redirect with `status` downgrades a request with `method`.
pub fn is_downgrade(status: u16, method: &str) -> (r: bool)
    ensures
        r == downgrades(status, method@),
{
    let post = text_eq(method, "POST");
    let get = text_eq(method, "GET");
    let head = text_eq(method, "HEAD");
    ((status == 301 || status == 302) && post) || (status == 303 && !get && !head)
}

pub fn copy_strings(v: &Vec<String>) -> (r: Vec<String>)
    ensures
        r@ == v@,
{
    let mut r: Vec<String> = Vec::new();
    let mut i: usize = 0;
    while i < v.len()
        invariant
            i <= v@.len(),
            r@ == v@.subrange(0, i as int),
        decreases v@.len() - i,
    {
        r.push(v[i].clone());
        proof {
            assert(r@ =~= v@.subrange(0, i + 1));
        }
        i = i + 1;
    }
    proof {
        assert(r@ =~= v@);
    }
    r
}

/// The headers of the next hop: without the body's headers after a downgrade,
/// and with `Host` recomputed from the new target.
pub open spec fn redirected_headers(h: HeadersView, downgrade: bool, authority: Seq<char>) -> HeadersView {
    let kept = if downgrade {
        without_content_headers(h)
    } else {
        h
    };
    without_header(kept, "host"@).push(("host"@, authority))
}

impl Request {
    /// Locations are never empty, and the last one is the target.
    pub open spec fn wf(&self) -> bool {
        self.locations@.len() > 0 && self.locations@.last()@ == self.url@
    }

    /// `r` is the request of the hop after `self` was redirected with `status`
    /// to `target`, whose host (and port) is `authority`.
    pub open spec fn redirect_of(self, r: Request, status: u16, target: Seq<char>, authority: Seq<char>) -> bool {
        &&& r.wf()
        &&& r.url@ == target
        &&& r.locations@.len() == self.locations@.len() + 1
        &&& strings_view(r.locations@) == strings_view(self.locations@).push(target)
        &&& r.method@ == if downgrades(status, self.method@) {
            "GET"@
        } else {
            self.method@
        }
        &&& r.body@ == if downgrades(status, self.method@) {
            Seq::<u8>::empty()
        } else {
            self.body@
        }
        &&& headers_view(r.headers@) == redirected_headers(
            headers_view(self.headers@),
            downgrades(status, self.method@),
            authority,
        )
        &&& r.body_used == self.body_used
        &&& r.mode == self.mode
        &&& r.credentials == self.credentials
        &&& r.cache == self.cache
        &&& r.redirect == self.redirect
        &&& r.integrity@ == self.integrity@
        &&& r.unsafe_request == self.unsafe_request
        &&& r.keepalive == self.keepalive
        &&& r.reload_navigation == self.reload_navigation
        &&& r.history_navigation == self.history_navigation
        &&& r.client_window == self.client_window
        &&& r.signal == self.signal
    }

    /// A copy to send: an unconsumed copy of the body, and a history that
    /// starts at the current target.
    pub fn clone(&self) -> (r: Request)
        requires
            self.wf(),
        ensures
            r.wf(),
            r.method@ == self.method@,
            r.url@ == self.url@,
            r.locations@.len() == 1,
            strings_view(r.locations@) == seq![self.url@],
            headers_view(r.headers@) == headers_view(self.headers@),
            r.body@ == self.body@,
            !r.body_used,
            r.mode == self.mode,
            r.credentials == self.credentials,
            r.cache == self.cache,
            r.redirect == self.redirect,
            r.integrity@ == self.integrity@,
            r.unsafe_request,
            r.keepalive == self.keepalive,
            !r.reload_navigation,
            !r.history_navigation,
            r.client_window == self.client_window,
            r.signal == self.signal,
    {
        let last = self.locations.len() - 1;
        let url = self.locations[last].clone();
        let locations = vec![url.clone()];
        proof {
            assert(strings_view(locations@) =~= seq![self.url@]);
        }
        Request {
            method: self.method.clone(),
            url,
            headers: copy_headers(&self.headers),
            body: copy_bytes(&self.body),
            body_used: false,
            locations,
            mode: self.mode,
            credentials: self.credentials,
            cache: self.cache,
            redirect: self.redirect,
            integrity: self.integrity.clone(),
            unsafe_request: true,
            keepalive: self.keepalive,
            reload_navigation: false,
            history_navigation: false,
            client_window: self.client_window,
            signal: self.signal,
        }
    }

    /// The request of the next hop after a redirect with `status` to `target`,
    /// whose host (and port) is `authority`. A 301 or 302 to a POST, or a 303
    /// to anything but GET or HEAD, becomes a GET without a body or the
    /// headers that describe one; `Host` is always recomputed.
    pub fn normalize_for_redirect(&self, status: u16, target: &str, authority: &str) -> (r: Request)
        requires
            self.wf(),
        ensures
            Request::redirect_of(*self, r, status, target@, authority@),
    {
        let downgrade = is_downgrade(status, self.method.as_str());
        let mut headers = copy_headers(&self.headers);
        let method;
        let body;
        if downgrade {
            method = String::from_str("GET");
            body = Vec::new();
            remove_header(&mut headers, "content-encoding");
            remove_header(&mut headers, "content-language");
            remove_header(&mut headers, "content-location");
            remove_header(&mut headers, "content-type");
        } else {
            method = self.method.clone();
            body = copy_bytes(&self.body);
        }
        remove_header(&mut headers, "host");
        headers.push((String::from_str("host"), String::from_str(authority)));
        let mut locations = copy_strings(&self.locations);
        locations.push(String::from_str(target));
        proof {
            assert(locations@.drop_last() =~= self.locations@);
            assert(strings_view(locations@) =~= strings_view(self.locations@).push(target@));
            assert(headers_view(headers@) =~= redirected_headers(
                headers_view(self.headers@),
                downgrade,
                authority@,
            ));
        }
        Request {
            method,
            url: String::from_str(target),
            headers,
            body,
            body_used: self.body_used,
            locations,
            mode: self.mode,
            credentials: self.credentials,
            cache: self.cache,
            redirect: self.redirect,
            integrity: self.integrity.clone(),
            unsafe_request: self.unsafe_request,
            keepalive: self.keepalive,
            reload_navigation: self.reload_navigation,
            history_navigation: self.history_navigation,
            client_window: self.client_window,
            signal: self.signal,
        }
    }
}

/// Every entry of `without_header(h, name)` is an entry of `h` not named `name`.
pub proof fn lemma_without_header(h: HeadersView, name: Seq<char>)
    ensures
        forall|e: (Seq<char>, Seq<char>)| #[trigger]
            without_header(h, name).contains(e) ==> h.contains(e) && !eq_ignore_case(e.0, name),
    decreases h.len(),
{
    if h.len() > 0 {
        lemma_without_header(h.drop_last(), name);
        assert forall|e: (Seq<char>, Seq<char>)| #[trigger]
            without_header(h, name).contains(e) implies h.contains(e) && !eq_ignore_case(e.0, name) by {
            let rest = without_header(h.drop_last(), name);
            if !eq_ignore_case(h.last().0, name) && e == h.last() {
                assert(h[h.len() - 1] == e);
            } else {
                assert(rest.contains(e)) by {
                    if !eq_ignore_case(h.last().0, name) {
                        let k = choose|k: int| 0 <= k < rest.push(h.last()).len() && rest.push(h.last())[k] == e;
                        assert(rest[k] == e);
                    }
                }
                let k = choose|k: int| 0 <= k < h.drop_last().len() && h.drop_last()[k] == e;
                assert(h[k] == e);
            }
        }
    }
}

/// No entry of `without_header(h, name)` is named `name`.
pub proof fn lemma_header_removed(h: HeadersView, name: Seq<char>)
    ensures
        !has_header(without_header(h, name), name),
{
    lemma_without_header(h, name);
    let w = without_header(h, name);
    assert forall|i: int| 0 <= i < w.len() implies !eq_ignore_case(#[trigger] w[i].0, name) by {
        assert(w.contains(w[i]));
    }
}

/// A name stays absent from a header list when entries are removed from it.
proof fn lemma_stays_removed(h: HeadersView, gone: Seq<char>, name: Seq<char>)
    requires
        !has_header(h, gone),
    ensures
        !has_header(without_header(h, name), gone),
{
    lemma_without_header(h, name);
    let w = without_header(h, name);
    assert forall|i: int| 0 <= i < w.len() implies !eq_ignore_case(#[trigger] w[i].0, gone) by {
        assert(w.contains(w[i]));
        let k = choose|k: int| 0 <= k < h.len() && h[k] == w[i];
        assert(!eq_ignore_case(h[k].0, gone));
    }
}

/// Adding an entry whose name differs from `gone` keeps `gone` absent.
proof fn lemma_push_other(h: HeadersView, gone: Seq<char>, e: (Seq<char>, Seq<char>))
    requires
        !has_header(h, gone),
        e.0.len() != gone.len(),
    ensures
        !has_header(h.push(e), gone),
{
    let w = h.push(e);
    assert forall|i: int| 0 <= i < w.len() implies !eq_ignore_case(#[trigger] w[i].0, gone) by {
        if i < h.len() {
            assert(w[i] == h[i]);
        }
    }
}

/// A POST redirected with 302 goes on as a GET without a body and without
/// the headers that describe one.
pub proof fn post_found_becomes_get(req: Request, r: Request, target: Seq<char>, authority: Seq<char>)
    requires
        req.method@ == "POST"@,
        req.redirect_of(r, 302, target, authority),
    ensures
        r.method@ == "GET"@,
        r.body@.len() == 0,
        !has_header(headers_view(r.headers@), "content-type"@),
        !has_header(headers_view(r.headers@), "content-encoding"@),
        !has_header(headers_view(r.headers@), "content-language"@),
        !has_header(headers_view(r.headers@), "content-location"@),
{
    reveal_strlit("host");
    reveal_strlit("content-type");
    reveal_strlit("content-encoding");
    reveal_strlit("content-language");
    reveal_strlit("content-location");
    let h = headers_view(req.headers@);
    let h1 = without_header(h, "content-encoding"@);
    let h2 = without_header(h1, "content-language"@);
    let h3 = without_header(h2, "content-location"@);
    let h4 = without_header(h3, "content-type"@);
    let h5 = without_header(h4, "host"@);
    let e = ("host"@, authority);
    lemma_header_removed(h, "content-encoding"@);
    lemma_stays_removed(h1, "content-encoding"@, "content-language"@);
    lemma_stays_removed(h2, "content-encoding"@, "content-location"@);
    lemma_stays_removed(h3, "content-encoding"@, "content-type"@);
    lemma_stays_removed(h4, "content-encoding"@, "host"@);
    lemma_push_other(h5, "content-encoding"@, e);
    lemma_header_removed(h1, "content-language"@);
    lemma_stays_removed(h2, "content-language"@, "content-location"@);
    lemma_stays_removed(h3, "content-language"@, "content-type"@);
    lemma_stays_removed(h4, "content-language"@, "host"@);
    lemma_push_other(h5, "content-language"@, e);
    lemma_header_removed(h2, "content-location"@);
    lemma_stays_removed(h3, "content-location"@, "content-type"@);
    lemma_stays_removed(h4, "content-location"@, "host"@);
    lemma_push_other(h5, "content-location"@, e);
    lemma_header_removed(h3, "content-type"@);
    lemma_stays_removed(h4, "content-type"@, "host"@);
    lemma_push_other(h5, "content-type"@, e);
}

/// A POST redirected with 307 keeps its method and its body.
pub proof fn post_temporary_redirect_kept(req: Request, r: Request, target: Seq<char>, authority: Seq<char>)
    requires
        req.method@ == "POST"@,
        req.redirect_of(r, 307, target, authority),
    ensures
        r.method@ == "POST"@,
        r.body@ == req.body@,
{
}

/// A character that http's method table accepts: a letter, a digit, or one
/// of `! * + - . ^ _ ` | ~`.
pub open spec fn is_method_char(c: char) -> bool {
    ('A' <= c && c <= 'Z') || ('a' <= c && c <= 'z') || ('0' <= c && c <= '9') || c == '!' || c
        == '*' || c == '+' || c == '-' || c == '.' || c == '^' || c == '_' || c == '`' || c == '|'
        || c == '~'
}

/// Whether `s` is a method that the `http` crate accepts: not empty, and
/// made of method characters only.
pub open spec fn method_token_valid(s: Seq<char>) -> bool {
    s.len() > 0 && forall|i: int| 0 <= i < s.len() ==> is_method_char(#[trigger] s[i])
}

/// Relies on http::Method::from_str, which accepts exactly the non-empty
/// texts whose every byte its method table allows.
#[verifier::external_body]
fn is_method_token(s: &str) -> (r: bool)
    ensures
        r == method_token_valid(s@),
{
    <http::Method as std::str::FromStr>::from_str(s).is_ok()
}

/// Where a request is built from.
pub enum RequestInfo {
    Request(Request),
    String(String),
}

/// A body given to the constructor, with the media type it names, if any.
pub struct RequestBody {
    pub bytes: Vec<u8>,
    pub kind: Option<String>,
}

/// The options of the constructor; each one left `None` keeps what the
/// request had.
pub struct RequestInit {
    /// `Some(true)` for a null window, `Some(false)` for any other window.
    pub window_is_null: Option<bool>,
    pub mode: Option<RequestMode>,
    pub credentials: Option<RequestCredentials>,
    pub cache: Option<RequestCache>,
    pub redirect: Option<RequestRedirect>,
    pub integrity: Option<String>,
    pub keepalive: Option<bool>,
    pub signal: Option<AbortSignal>,
    pub headers: Option<Vec<(String, String)>>,
    pub body: Option<RequestBody>,
}

pub struct RequestBuilderInit {
    pub method: Option<String>,
    pub init: RequestInit,
}

/// Why the constructor refused a request.
#[derive(Clone, Copy, Debug, PartialEq, Eq, Structural)]
pub enum RequestError {
    /// The text is not an absolute URL.
    InvalidUrl,
    /// The URL carries a user name or a password.
    UrlCredentials,
    /// A window other than null was given.
    NonNullWindow,
    /// The mode `navigate` was asked for.
    NavigateMode,
    /// The method is not a valid token.
    InvalidMethod,
    /// CONNECT and TRACE are not allowed.
    ForbiddenMethod,
    /// `only-if-cached` was asked for outside the `same-origin` mode.
    OnlyIfCachedMode,
    /// The `no-cors` mode allows only GET, HEAD and POST.
    NoCorsMethod,
}

/// The error of building a request from `info`, before any option applies.
pub open spec fn info_error(info: RequestInfo) -> Option<RequestError> {
    match info {
        RequestInfo::Request(_) => Option::None,
        RequestInfo::String(s) => url_error(s@),
    }
}

/// The error of building a request for the URL text `s`, if any.
pub open spec fn url_error(s: Seq<char>) -> Option<RequestError> {
    match parsed_url(s) {
        Option::None => Option::Some(RequestError::InvalidUrl),
        Option::Some(p) => if !uri_valid(s) {
            Option::Some(RequestError::InvalidUrl)
        } else if p.3.len() > 0 || p.4 {
            Option::Some(RequestError::UrlCredentials)
        } else {
            Option::None
        },
    }
}

/// The error that the options alone give, if any.
pub open spec fn init_error(b: RequestBuilderInit) -> Option<RequestError> {
    if b.init.window_is_null == Option::Some(false) {
        Option::Some(RequestError::NonNullWindow)
    } else if b.init.mode == Option::Some(RequestMode::Navigate) {
        Option::Some(RequestError::NavigateMode)
    } else {
        match b.method {
            Option::Some(m) => method_error(m@),
            Option::None => Option::None,
        }
    }
}

/// The error of the method text `m`, if any.
pub open spec fn method_error(m: Seq<char>) -> Option<RequestError> {
    if !method_token_valid(ascii_upper(m)) {
        Option::Some(RequestError::InvalidMethod)
    } else if ascii_upper(m) == "CONNECT"@ || ascii_upper(m) == "TRACE"@ {
        Option::Some(RequestError::ForbiddenMethod)
    } else {
        Option::None
    }
}

/// The mode after the options `b` apply to a request in mode `base`;
/// `fallback` when the request was built from a URL.
pub open spec fn mode_with(base: RequestMode, fallback: bool, b: RequestBuilderInit) -> RequestMode {
    match b.init.mode {
        Option::Some(m) => m,
        Option::None => if fallback {
            RequestMode::Cors
        } else if base == RequestMode::Navigate {
            RequestMode::SameOrigin
        } else {
            base
        },
    }
}

/// The headers after the options `b` apply to `base`.
pub open spec fn headers_with(base: HeadersView, b: RequestBuilderInit) -> HeadersView {
    payload_headers(base, b.init.headers, b.init.body)
}

/// The headers after `headers` replace `base` (when given) and `body` adds its
/// media type.
pub open spec fn payload_headers(
    base: HeadersView,
    headers: Option<Vec<(String, String)>>,
    body: Option<RequestBody>,
) -> HeadersView {
    let h = match headers {
        Option::Some(h) => headers_view(h@),
        Option::None => base,
    };
    match body {
        Option::Some(body) => match body.kind {
            Option::Some(k) => if has_header(h, "content-type"@) {
                h.push(("content-type"@, k@))
            } else {
                h
            },
            Option::None => h,
        },
        Option::None => h,
    }
}

pub open spec fn mode_after(info: RequestInfo, init: Option<RequestBuilderInit>) -> RequestMode {
    let base = match info {
        RequestInfo::Request(q) => q.mode,
        RequestInfo::String(_) => RequestMode::Cors,
    };
    match init {
        Option::None => base,
        Option::Some(b) => mode_with(base, info is String, b),
    }
}

pub open spec fn method_after(info: RequestInfo, init: Option<RequestBuilderInit>) -> Seq<char> {
    let base = match info {
        RequestInfo::Request(q) => q.method@,
        RequestInfo::String(_) => "GET"@,
    };
    match init {
        Option::Some(b) => match b.method {
            Option::Some(m) => ascii_upper(m@),
            Option::None => base,
        },
        Option::None => base,
    }
}

pub open spec fn cache_after(info: RequestInfo, init: Option<RequestBuilderInit>) -> RequestCache {
    let base = match info {
        RequestInfo::Request(q) => q.cache,
        RequestInfo::String(_) => RequestCache::Default,
    };
    match init {
        Option::Some(b) => match b.init.cache {
            Option::Some(c) => c,
            Option::None => base,
        },
        Option::None => base,
    }
}

/// The error of the finished request: its cache mode and method against its mode.
pub open spec fn policy_error(mode: RequestMode, cache: RequestCache, method: Seq<char>) -> Option<RequestError> {
    if cache == RequestCache::OnlyIfCached && mode != RequestMode::SameOrigin {
        Option::Some(RequestError::OnlyIfCachedMode)
    } else if mode == RequestMode::NoCors && method != "GET"@ && method != "HEAD"@ && method
        != "POST"@ {
        Option::Some(RequestError::NoCorsMethod)
    } else {
        Option::None
    }
}

/// The error the constructor fails with, if any: the URL's, then the
/// options', then the finished request's.
pub open spec fn constructor_error(info: RequestInfo, init: Option<RequestBuilderInit>) -> Option<RequestError> {
    if info_error(info) is Some {
        info_error(info)
    } else if init is Some && init_error(init->Some_0) is Some {
        init_error(init->Some_0)
    } else {
        policy_error(mode_after(info, init), cache_after(info, init), method_after(info, init))
    }
}

pub open spec fn headers_after(info: RequestInfo, init: Option<RequestBuilderInit>) -> HeadersView {
    let base = match info {
        RequestInfo::Request(q) => headers_view(q.headers@),
        RequestInfo::String(_) => Seq::empty(),
    };
    match init {
        Option::None => base,
        Option::Some(b) => headers_with(base, b),
    }
}

pub open spec fn body_after(info: RequestInfo, init: Option<RequestBuilderInit>) -> Seq<u8> {
    let base = match info {
        RequestInfo::Request(q) => q.body@,
        RequestInfo::String(_) => Seq::empty(),
    };
    match init {
        Option::Some(b) => match b.init.body {
            Option::Some(body) => body.bytes@,
            Option::None => base,
        },
        Option::None => base,
    }
}

/// `o`'s value, or `d` when there is none.
pub open spec fn opt_or<T>(o: Option<T>, d: T) -> T {
    match o {
        Option::Some(v) => v,
        Option::None => d,
    }
}

/// The options in `init`, if any.
pub open spec fn options_of(init: Option<RequestBuilderInit>) -> Option<RequestInit> {
    match init {
        Option::Some(b) => Option::Some(b.init),
        Option::None => Option::None,
    }
}

pub open spec fn credentials_after(info: RequestInfo, init: Option<RequestBuilderInit>) -> RequestCredentials {
    let base = match info {
        RequestInfo::Request(q) => q.credentials,
        RequestInfo::String(_) => RequestCredentials::SameOrigin,
    };
    match options_of(init) {
        Option::Some(o) => opt_or(o.credentials, base),
        Option::None => base,
    }
}

pub open spec fn redirect_after(info: RequestInfo, init: Option<RequestBuilderInit>) -> RequestRedirect {
    let base = match info {
        RequestInfo::Request(q) => q.redirect,
        RequestInfo::String(_) => RequestRedirect::Follow,
    };
    match options_of(init) {
        Option::Some(o) => opt_or(o.redirect, base),
        Option::None => base,
    }
}

pub open spec fn integrity_after(info: RequestInfo, init: Option<RequestBuilderInit>) -> Seq<char> {
    let base = match info {
        RequestInfo::Request(q) => q.integrity@,
        RequestInfo::String(_) => Seq::empty(),
    };
    match options_of(init) {
        Option::Some(o) => match o.integrity {
            Option::Some(t) => t@,
            Option::None => base,
        },
        Option::None => base,
    }
}

pub open spec fn keepalive_after(info: RequestInfo, init: Option<RequestBuilderInit>) -> bool {
    let base = match info {
        RequestInfo::Request(q) => q.keepalive,
        RequestInfo::String(_) => false,
    };
    match options_of(init) {
        Option::Some(o) => opt_or(o.keepalive, base),
        Option::None => base,
    }
}

pub open spec fn signal_after(info: RequestInfo, init: Option<RequestBuilderInit>) -> AbortSignal {
    let base = match info {
        RequestInfo::Request(q) => q.signal,
        RequestInfo::String(_) => AbortSignal::default_spec(),
    };
    match options_of(init) {
        Option::Some(o) => opt_or(o.signal, base),
        Option::None => base,
    }
}

pub open spec fn client_window_after(info: RequestInfo, init: Option<RequestBuilderInit>) -> bool {
    let base = match info {
        RequestInfo::Request(q) => q.client_window,
        RequestInfo::String(_) => true,
    };
    match options_of(init) {
        Option::Some(o) => if o.window_is_null == Option::Some(true) {
            false
        } else {
            base
        },
        Option::None => base,
    }
}

/// The target a request built from `info` has.
pub open spec fn url_after(info: RequestInfo) -> Seq<char> {
    match info {
        RequestInfo::Request(q) => q.url@,
        RequestInfo::String(s) => parsed_url(s@)->Some_0.0,
    }
}

/// `m` made upper case, if it is a method token other than CONNECT and TRACE.
fn checked_method(m: &str) -> (r: Result<String, RequestError>)
    ensures
        r is Err <==> method_error(m@) is Some,
        r is Err ==> Option::Some(r->Err_0) == method_error(m@),
        r matches Result::Ok(u) ==> u@ == ascii_upper(m@),
{
    let upper = ascii_uppercase(m);
    if !is_method_token(upper.as_str()) {
        return Result::Err(RequestError::InvalidMethod);
    }
    if text_eq(upper.as_str(), "CONNECT") || text_eq(upper.as_str(), "TRACE") {
        return Result::Err(RequestError::ForbiddenMethod);
    }
    Result::Ok(upper)
}

/// The headers and body after the constructor's `headers` and `body` apply.
fn payload(
    old_headers: &Vec<(String, String)>,
    old_body: &Vec<u8>,
    headers: Option<Vec<(String, String)>>,
    body: Option<RequestBody>,
) -> (r: (Vec<(String, String)>, Vec<u8>))
    ensures
        headers_view(r.0@) == payload_headers(headers_view(old_headers@), headers, body),
        r.1@ == match body {
            Option::Some(b) => b.bytes@,
            Option::None => old_body@,
        },
{
    let mut h = match headers {
        Option::Some(h) => h,
        Option::None => copy_headers(old_headers),
    };
    match body {
        Option::Some(b) => {
            let RequestBody { bytes, kind } = b;
            if let Option::Some(k) = kind {
                if contains_header(&h, "content-type") {
                    let ghost before = h@;
                    h.push((String::from_str("content-type"), k));
                    proof {
                        assert(headers_view(h@) =~= headers_view(before).push(("content-type"@, k@)));
                    }
                }
            }
            (h, bytes)
        },
        Option::None => (h, copy_bytes(old_body)),
    }
}

impl Request {
    /// A request for `url` with every option at its default.
    fn from_url(url: &str) -> (r: Result<Request, RequestError>)
        ensures
            r is Err <==> url_error(url@) is Some,
            r is Err ==> Option::Some(r->Err_0) == url_error(url@),
            r matches Result::Ok(q) ==> {
                &&& q.wf()
                &&& q.url@ == parsed_url(url@)->Some_0.0
                &&& q.locations@.len() == 1
                &&& q.method@ == "GET"@
                &&& q.headers@.len() == 0
                &&& q.body@.len() == 0
                &&& q.mode == RequestMode::Cors
                &&& q.credentials == RequestCredentials::SameOrigin
                &&& q.cache == RequestCache::Default
                &&& q.redirect == RequestRedirect::Follow
                &&& q.integrity@.len() == 0
                &&& !q.body_used && !q.unsafe_request && !q.keepalive
                &&& !q.reload_navigation && !q.history_navigation
                &&& q.client_window
                &&& q.signal == AbortSignal::default_spec()
            },
    {
        let parts = match parse_url(url) {
            Option::Some(p) => p,
            Option::None => return Result::Err(RequestError::InvalidUrl),
        };
        if !is_uri(url) {
            return Result::Err(RequestError::InvalidUrl);
        }
        if parts.username.unicode_len() > 0 || parts.has_password {
            return Result::Err(RequestError::UrlCredentials);
        }
        let href = parts.href;
        let locations = vec![href.clone()];
        Result::Ok(Request {
            method: String::from_str("GET"),
            url: href,
            headers: Vec::new(),
            body: Vec::new(),
            body_used: false,
            locations,
            mode: RequestMode::Cors,
            credentials: RequestCredentials::SameOrigin,
            cache: RequestCache::Default,
            redirect: RequestRedirect::Follow,
            integrity: String::new(),
            unsafe_request: false,
            keepalive: false,
            reload_navigation: false,
            history_navigation: false,
            client_window: true,
            signal: AbortSignal { signal: Signal::Inert },
        })
    }

    /// This request with the constructor's options `b` applied;
    /// `fallback_cors` when it was built from a URL.
    fn with_options(self, fallback_cors: bool, b: RequestBuilderInit) -> (r: Result<Request, RequestError>)
        ensures
            r is Err <==> init_error(b) is Some,
            r is Err ==> Option::Some(r->Err_0) == init_error(b),
            r is Ok ==> {
                &&& r->Ok_0.url == self.url
                &&& r->Ok_0.locations == self.locations
                &&& r->Ok_0.body_used == self.body_used
                &&& r->Ok_0.unsafe_request == self.unsafe_request
                &&& r->Ok_0.method@ == match b.method {
                    Option::Some(m) => ascii_upper(m@),
                    Option::None => self.method@,
                }
                &&& r->Ok_0.mode == mode_with(self.mode, fallback_cors, b)
                &&& r->Ok_0.cache == match b.init.cache {
                    Option::Some(c) => c,
                    Option::None => self.cache,
                }
                &&& headers_view(r->Ok_0.headers@) == headers_with(headers_view(self.headers@), b)
                &&& r->Ok_0.body@ == match b.init.body {
                    Option::Some(body) => body.bytes@,
                    Option::None => self.body@,
                }
                &&& !r->Ok_0.reload_navigation && !r->Ok_0.history_navigation
                &&& r->Ok_0.client_window == if b.init.window_is_null == Option::Some(true) {
                    false
                } else {
                    self.client_window
                }
                &&& r->Ok_0.credentials == match b.init.credentials {
                    Option::Some(c) => c,
                    Option::None => self.credentials,
                }
                &&& r->Ok_0.redirect == match b.init.redirect {
                    Option::Some(x) => x,
                    Option::None => self.redirect,
                }
                &&& r->Ok_0.integrity@ == match b.init.integrity {
                    Option::Some(t) => t@,
                    Option::None => self.integrity@,
                }
                &&& r->Ok_0.keepalive == match b.init.keepalive {
                    Option::Some(k) => k,
                    Option::None => self.keepalive,
                }
                &&& r->Ok_0.signal == match b.init.signal {
                    Option::Some(g) => g,
                    Option::None => self.signal,
                }
            },
    {
        let RequestBuilderInit { method, init } = b;
        let client_window = match init.window_is_null {
            Option::Some(is_null) => if is_null {
                false
            } else {
                return Result::Err(RequestError::NonNullWindow);
            },
            Option::None => self.client_window,
        };
        let mode = match init.mode {
            Option::Some(m) => if m == RequestMode::Navigate {
                return Result::Err(RequestError::NavigateMode);
            } else {
                m
            },
            Option::None => if fallback_cors {
                RequestMode::Cors
            } else if self.mode == RequestMode::Navigate {
                RequestMode::SameOrigin
            } else {
                self.mode
            },
        };
        let method = match method {
            Option::Some(m) => match checked_method(m.as_str()) {
                Result::Ok(upper) => upper,
                Result::Err(e) => return Result::Err(e),
            },
            Option::None => self.method,
        };
        let (headers, body) = payload(&self.headers, &self.body, init.headers, init.body);
        Result::Ok(Request {
            method,
            url: self.url,
            headers,
            body,
            body_used: self.body_used,
            locations: self.locations,
            mode,
            credentials: match init.credentials {
                Option::Some(c) => c,
                Option::None => self.credentials,
            },
            cache: match init.cache {
                Option::Some(c) => c,
                Option::None => self.cache,
            },
            redirect: match init.redirect {
                Option::Some(x) => x,
                Option::None => self.redirect,
            },
            integrity: match init.integrity {
                Option::Some(t) => t,
                Option::None => self.integrity,
            },
            unsafe_request: self.unsafe_request,
            keepalive: match init.keepalive {
                Option::Some(k) => k,
                Option::None => self.keepalive,
            },
            reload_navigation: false,
            history_navigation: false,
            client_window,
            signal: match init.signal {
                Option::Some(g) => g,
                Option::None => self.signal,
            },
        })
    }

    /// Builds a request from a URL or another request, with `init`'s options.
    pub fn constructor(info: RequestInfo, init: Option<RequestBuilderInit>) -> (r: Result<Request, RequestError>)
        requires
            info matches RequestInfo::Request(q) ==> q.wf(),
        ensures
            r is Err <==> constructor_error(info, init) is Some,
            r is Err ==> Option::Some(r->Err_0) == constructor_error(info, init),
            r matches Result::Ok(q) ==> {
                &&& q.wf()
                &&& q.url@ == url_after(info)
                &&& q.method@ == method_after(info, init)
                &&& q.mode == mode_after(info, init)
                &&& q.cache == cache_after(info, init)
                &&& headers_view(q.headers@) == headers_after(info, init)
                &&& q.body@ == body_after(info, init)
                &&& q.locations@.len() == 1
                &&& q.locations@[0]@ == q.url@
                &&& !q.body_used
                &&& q.unsafe_request == (info is Request)
                &&& !q.reload_navigation && !q.history_navigation
                &&& q.credentials == credentials_after(info, init)
                &&& q.redirect == redirect_after(info, init)
                &&& q.integrity@ == integrity_after(info, init)
                &&& q.keepalive == keepalive_after(info, init)
                &&& q.signal == signal_after(info, init)
                &&& q.client_window == client_window_after(info, init)
            },
    {
        let mut fallback_cors = false;
        let request = match info {
            RequestInfo::Request(q) => q.clone(),
            RequestInfo::String(url) => {
                match Request::from_url(url.as_str()) {
                    Result::Ok(q) => {
                        fallback_cors = true;
                        q
                    },
                    Result::Err(e) => return Result::Err(e),
                }
            },
        };
        let request = match init {
            Option::Some(b) => match request.with_options(fallback_cors, b) {
                Result::Ok(q) => q,
                Result::Err(e) => return Result::Err(e),
            },
            Option::None => request,
        };
        if request.cache == RequestCache::OnlyIfCached && request.mode != RequestMode::SameOrigin {
            return Result::Err(RequestError::OnlyIfCachedMode);
        }
        if request.mode == RequestMode::NoCors {
            let m = request.method.as_str();
            if !text_eq(m, "GET") && !text_eq(m, "HEAD") && !text_eq(m, "POST") {
                return Result::Err(RequestError::NoCorsMethod);
            }
        }
        Result::Ok(request)
    }
}

} // verus!
