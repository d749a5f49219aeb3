//! URLs, parsed and resolved by the `url` crate, and the `Host` header value
//! of a URL.
use vstd::prelude::*;

verus! {

/// What the library reads of a parsed URL.
pub struct UrlParts {
    /// The serialised URL.
    pub href: String,
    /// The host; `None` for a URL without one.
    pub host: Option<String>,
    /// The port, when it is not the scheme's default.
    pub port: Option<u16>,
    /// The user name; empty when there is none.
    pub username: String,
    pub has_password: bool,
}

/// The view of parsed URL parts: (href, host, port, user name, has password).
pub type UrlView = (Seq<char>, Option<Seq<char>>, Option<u16>, Seq<char>, bool);

pub open spec fn parts_view(p: UrlParts) -> UrlView {
    (
        p.href@,
        match p.host {
            Option::Some(h) => Option::Some(h@),
            Option::None => Option::None,
        },
        p.port,
        p.username@,
        p.has_password,
    )
}

pub open spec fn parts_option_view(p: Option<UrlParts>) -> Option<UrlView> {
    match p {
        Option::Some(q) => Option::Some(parts_view(q)),
        Option::None => Option::None,
    }
}

/// The parts of the URL that `s` parses to, if it is an absolute URL.
pub uninterp spec fn parsed_url(s: Seq<char>) -> Option<UrlView>;

/// The parts of the URL that `location` resolves to against `base`.
pub uninterp spec fn joined_url(base: Seq<char>, location: Seq<char>) -> Option<UrlView>;

/// Relies on url::Url::parse (with host_str, port, username and password)
/// for whether `s` is a URL and what its parts are.
#[verifier::external_body]
pub(crate) fn parse_url(s: &str) -> (r: Option<UrlParts>)
    ensures
        parts_option_view(r) == parsed_url(s@),
{
    match url::Url::parse(s) {
        Ok(u) => Some(UrlParts {
            href: u.as_str().to_string(),
            host: u.host_str().map(String::from),
            port: u.port(),
            username: u.username().to_string(),
            has_password: u.password().is_some(),
        }),
        Err(_) => None,
    }
}

/// Relies on url::Url::parse for the base and url::Url::join to resolve
/// `location` against it, as a browser resolves a `Location` header.
#[verifier::external_body]
pub(crate) fn join_url(base: &str, location: &str) -> (r: Option<UrlParts>)
    ensures
        parts_option_view(r) == joined_url(base@, location@),
{
    let joined = match url::Url::parse(base) {
        Ok(b) => b.join(location),
        Err(e) => Err(e),
    };
    match joined {
        Ok(u) => Some(UrlParts {
            href: u.as_str().to_string(),
            host: u.host_str().map(String::from),
            port: u.port(),
            username: u.username().to_string(),
            has_password: u.password().is_some(),
        }),
        Err(_) => None,
    }
}

/// Whether `s` is text that http's `Uri` parser accepts.
pub uninterp spec fn uri_valid(s: Seq<char>) -> bool;

/// Relies on http::Uri::from_str to tell whether `s` is a valid URI.
#[verifier::external_body]
pub(crate) fn is_uri(s: &str) -> (r: bool)
    ensures
        r == uri_valid(s@),
{
    <http::Uri as std::str::FromStr>::from_str(s).is_ok()
}

pub open spec fn digit_char(d: nat) -> char {
    if d == 0 { '0' } else if d == 1 { '1' } else if d == 2 { '2' } else if d == 3 { '3' } else if d
        == 4 { '4' } else if d == 5 { '5' } else if d == 6 { '6' } else if d == 7 { '7' } else if d
        == 8 { '8' } else { '9' }
}

/// The decimal digits of `n`, without leading zeros.
pub open spec fn decimal(n: nat) -> Seq<char>
    decreases n,
{
    if n < 10 {
        seq![digit_char(n)]
    } else {
        decimal(n / 10).push(digit_char(n % 10))
    }
}

/// Relies on u16's `to_string` (its `Display`): the decimal digits of `n`.
#[verifier::external_body]
fn decimal_text(n: u16) -> (r: String)
    ensures
        r@ == decimal(n as nat),
{
    n.to_string()
}

/// The `Host` value of a URL with `host` and `port`: the host, followed by
/// `:` and the port when there is one.
pub open spec fn authority_of(host: Seq<char>, port: Option<u16>) -> Seq<char> {
    match port {
        Option::Some(p) => host + ":"@ + decimal(p as nat),
        Option::None => host,
    }
}

pub fn authority(host: &str, port: Option<u16>) -> (r: String)
    ensures
        r@ == authority_of(host@, port),
{
    let mut a = String::from_str(host);
    if let Option::Some(p) = port {
        a.append(":");
        let digits = decimal_text(p);
        a.append(digits.as_str());
    }
    a
}

} // verus!
