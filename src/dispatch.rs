//! The redirect-following dispatcher: one logical fetch driven across its
//! hops. The caller performs each exchange and hands back the response head;
//! the dispatcher decides whether the fetch ends or which request goes next.
use vstd::prelude::*;

use crate::request::{
    copy_strings, has_header, headers_view, post_found_becomes_get, post_temporary_redirect_kept,
    strings_view, Request, RequestRedirect,
};
use crate::signal::Reason;
use crate::urls::{authority, authority_of, join_url, joined_url};

verus! {

/// Redirects followed at most in one fetch.
pub const MAX_REDIRECTIONS: u64 = 20;

pub open spec fn is_redirection_spec(status: u16) -> bool {
    status == 301 || status == 302 || status == 303 || status == 307 || status == 308
}

pub fn is_redirection(status: u16) -> (r: bool)
    ensures
        r == is_redirection_spec(status),
{
    status == 301 || status == 302 || status == 303 || status == 307 || status == 308
}

/// The `Location` header of a response, as the transport found it.
pub enum LocationHeader {
    Missing,
    /// Present, but not visible ASCII text.
    Unreadable,
    Text(String),
}

/// Why a fetch failed.
#[derive(Debug)]
pub enum FetchError {
    /// The transport failed; its message.
    Transport(String),
    /// A redirect arrived after this many had been followed.
    TooManyRedirects(u64),
    /// A redirect with this status would resend a body.
    RedirectWithBody(u16),
    /// The redirect policy forbids redirects; the status received.
    RedirectPolicyViolation(u16),
    /// The `Location` header's text; empty when missing or unreadable.
    MalformedLocation(String),
    /// The fetch's signal was aborted with this reason.
    AbortError(Reason),
    /// The fetch's signal timed out after this many milliseconds.
    TimeoutError(u64),
}

/// The kinds of `FetchError`.
#[derive(Clone, Copy, Debug, PartialEq, Eq, Structural)]
pub enum FetchErrorKind {
    Transport,
    TooManyRedirects,
    RedirectWithBody,
    RedirectPolicyViolation,
    MalformedLocation,
    AbortError,
    TimeoutError,
}

impl FetchError {
    pub open spec fn kind(&self) -> FetchErrorKind {
        match self {
            FetchError::Transport(_) => FetchErrorKind::Transport,
            FetchError::TooManyRedirects(_) => FetchErrorKind::TooManyRedirects,
            FetchError::RedirectWithBody(_) => FetchErrorKind::RedirectWithBody,
            FetchError::RedirectPolicyViolation(_) => FetchErrorKind::RedirectPolicyViolation,
            FetchError::MalformedLocation(_) => FetchErrorKind::MalformedLocation,
            FetchError::AbortError(_) => FetchErrorKind::AbortError,
            FetchError::TimeoutError(_) => FetchErrorKind::TimeoutError,
        }
    }

    /// The error of a fetch whose signal settled with `reason`.
    pub fn from_reason(reason: Reason) -> (r: FetchError)
        ensures
            r == match reason {
                Reason::Timeout(d) => FetchError::TimeoutError(d),
                _ => FetchError::AbortError(reason),
            },
    {
        match reason {
            Reason::Timeout(d) => FetchError::TimeoutError(d),
            _ => FetchError::AbortError(reason),
        }
    }
}

/// The end of a fetch that did not fail.
pub struct Response {
    pub status: u16,
    pub redirections: u64,
    /// Every target visited, the first request's first and the last one's last.
    pub locations: Vec<String>,
}

/// What the dispatcher asks for after a response head.
pub enum Step {
    /// Send this request and report its response.
    Send(Request),
    /// The fetch ended with this response.
    Done(Response),
    /// The fetch failed.
    Fail(FetchError),
}

/// A redirect other than 303 of a request that carries a body: following it
/// would send the body on to another target.
pub open spec fn resends_body(req: Request, status: u16) -> bool {
    status != 303 && req.body@.len() > 0
}

/// The kind of error a response head ends the fetch with, if any, for a
/// request that has followed `redirections` redirects.
pub open spec fn response_error(req: Request, redirections: u64, status: u16, location: LocationHeader) -> Option<FetchErrorKind> {
    if !is_redirection_spec(status) || req.redirect == RequestRedirect::Manual {
        Option::None
    } else if req.redirect == RequestRedirect::Error {
        Option::Some(FetchErrorKind::RedirectPolicyViolation)
    } else if redirections >= MAX_REDIRECTIONS {
        Option::Some(FetchErrorKind::TooManyRedirects)
    } else if resends_body(req, status) {
        Option::Some(FetchErrorKind::RedirectWithBody)
    } else {
        match location {
            LocationHeader::Text(t) => match joined_url(req.url@, t@) {
                Option::Some(parts) => if parts.1 is Some {
                    Option::None
                } else {
                    Option::Some(FetchErrorKind::MalformedLocation)
                },
                Option::None => Option::Some(FetchErrorKind::MalformedLocation),
            },
            _ => Option::Some(FetchErrorKind::MalformedLocation),
        }
    }
}

/// The text of a `Location` header; empty when there is none.
pub open spec fn location_text(location: LocationHeader) -> Seq<char> {
    match location {
        LocationHeader::Text(t) => t@,
        _ => Seq::empty(),
    }
}

/// `a` and `b` carry the same message: method, target, headers and body.
pub open spec fn same_message(a: Request, b: Request) -> bool {
    a.method@ == b.method@ && a.url@ == b.url@ && headers_view(a.headers@) == headers_view(
        b.headers@,
    ) && a.body@ == b.body@
}

/// `next` is the request that follows `prev`, after `n` redirects, when the
/// response head has `status` and `location`: the redirect is followed, and
/// `next` goes to the `Location` resolved against `prev`'s target.
pub open spec fn followed(prev: Request, n: u64, status: u16, location: LocationHeader, next: Request) -> bool {
    let parts = joined_url(prev.url@, location_text(location))->Some_0;
    &&& is_redirection_spec(status)
    &&& prev.redirect != RequestRedirect::Manual
    &&& response_error(prev, n, status, location) is None
    &&& prev.redirect_of(next, status, parts.0, authority_of(parts.1->Some_0, parts.2))
}

/// One fetch in progress.
pub struct Dispatch {
    request: Request,
    redirections: u64,
}

impl Dispatch {
    /// The request of the latest hop; its locations are the targets visited.
    pub closed spec fn request(&self) -> Request {
        self.request
    }

    pub closed spec fn redirections(&self) -> u64 {
        self.redirections
    }

    pub open spec fn wf(&self) -> bool {
        &&& self.request().wf()
        &&& self.request().locations@.len() == self.redirections() + 1
        &&& self.redirections() <= MAX_REDIRECTIONS
    }

    /// Starts a fetch of `req`; returns the dispatcher and the first request
    /// to send.
    pub fn start(req: &Request) -> (r: (Dispatch, Request))
        requires
            req.wf(),
        ensures
            r.0.wf(),
            r.0.redirections() == 0,
            strings_view(r.0.request().locations@) == seq![req.url@],
            same_message(r.0.request(), *req),
            r.0.request().redirect == req.redirect,
            same_message(r.1, *req),
    {
        let request = req.clone();
        let first = req.clone();
        (Dispatch { request, redirections: 0 }, first)
    }

    fn finish(&self, status: u16) -> (r: Response)
        ensures
            r.status == status,
            r.redirections == self.redirections(),
            r.locations@ == self.request().locations@,
    {
        let locations = copy_strings(&self.request.locations);
        Response { status, redirections: self.redirections, locations }
    }

    /// Decides what follows a response head with `status` and `location`.
    pub fn on_response(&mut self, status: u16, location: LocationHeader) -> (r: Step)
        requires
            old(self).wf(),
        ensures
            final(self).wf(),
            r is Fail <==> response_error(old(self).request(), old(self).redirections(), status, location) is Some,
            r is Fail ==> r->Fail_0.kind() == response_error(
                old(self).request(),
                old(self).redirections(),
                status,
                location,
            )->Some_0,
            r is Done <==> !is_redirection_spec(status) || old(self).request().redirect
                == RequestRedirect::Manual,
            r matches Step::Done(resp) ==> {
                &&& resp.status == status
                &&& resp.redirections == old(self).redirections()
                &&& resp.locations@ == old(self).request().locations@
                &&& resp.locations@.len() == resp.redirections + 1
                &&& resp.locations@.last()@ == old(self).request().url@
            },
            r matches Step::Fail(FetchError::TooManyRedirects(n)) ==> n == old(self).redirections(),
            r matches Step::Fail(FetchError::RedirectWithBody(s)) ==> s == status,
            r matches Step::Fail(FetchError::RedirectPolicyViolation(s)) ==> s == status,
            r matches Step::Fail(FetchError::MalformedLocation(t)) ==> t@ == location_text(location),
            r matches Step::Send(next) ==> {
                &&& final(self).redirections() == old(self).redirections() + 1
                &&& followed(old(self).request(), old(self).redirections(), status, location, final(self).request())
                &&& same_message(next, final(self).request())
            },
            !(r is Send) ==> *final(self) == *old(self),
    {
        if !is_redirection(status) {
            return Step::Done(self.finish(status));
        }
        match self.request.redirect {
            RequestRedirect::Manual => {
                return Step::Done(self.finish(status));
            },
            RequestRedirect::Error => {
                return Step::Fail(FetchError::RedirectPolicyViolation(status));
            },
            RequestRedirect::Follow => {},
        }
        if self.redirections >= MAX_REDIRECTIONS {
            return Step::Fail(FetchError::TooManyRedirects(self.redirections));
        }
        if status != 303 && self.request.body.len() > 0 {
            return Step::Fail(FetchError::RedirectWithBody(status));
        }
        let text = match location {
            LocationHeader::Text(t) => t,
            _ => {
                return Step::Fail(FetchError::MalformedLocation(String::new()));
            },
        };
        let parts = match join_url(self.request.url.as_str(), text.as_str()) {
            Option::Some(p) => p,
            Option::None => {
                return Step::Fail(FetchError::MalformedLocation(text));
            },
        };
        let host = match parts.host {
            Option::Some(h) => h,
            Option::None => {
                return Step::Fail(FetchError::MalformedLocation(text));
            },
        };
        let authority = authority(host.as_str(), parts.port);
        let next = self.request.normalize_for_redirect(status, parts.href.as_str(), authority.as_str());
        self.request = next;
        self.redirections = self.redirections + 1;
        Step::Send(self.request.clone())
    }
}

/// Under the `Error` policy every redirection response fails the fetch with a
/// policy violation, whatever else holds.
pub proof fn error_policy_rejects_redirects(req: Request, redirections: u64, status: u16, location: LocationHeader)
    requires
        req.redirect == RequestRedirect::Error,
        is_redirection_spec(status),
    ensures
        response_error(req, redirections, status, location) == Option::Some(
            FetchErrorKind::RedirectPolicyViolation,
        ),
{
}

/// A followed 301 of a request with a body, whatever its method, fails with
/// `RedirectWithBody`.
pub proof fn moved_permanently_with_body_fails(req: Request, redirections: u64, location: LocationHeader)
    requires
        req.redirect == RequestRedirect::Follow,
        redirections < MAX_REDIRECTIONS,
        req.body@.len() > 0,
    ensures
        response_error(req, redirections, 301, location) == Option::Some(FetchErrorKind::RedirectWithBody),
{
}

/// Over a chain of followed redirects from a request with one location, the
/// last request's locations are the targets of every request in the chain, in
/// order: one more than the redirects, the last being its own target.
pub proof fn hops_record_every_target(reqs: Seq<Request>, statuses: Seq<u16>, locations: Seq<LocationHeader>)
    requires
        reqs.len() == statuses.len() + 1,
        locations.len() == statuses.len(),
        reqs[0].wf(),
        reqs[0].locations@.len() == 1,
        forall|i: int|
            0 <= i < statuses.len() ==> followed(
                #[trigger] reqs[i],
                i as u64,
                statuses[i],
                locations[i],
                reqs[i + 1],
            ),
    ensures
        reqs.last().wf(),
        reqs.last().locations@.len() == reqs.len(),
        forall|i: int| 0 <= i < reqs.len() ==> (#[trigger] reqs.last().locations@[i])@ == reqs[i].url@,
    decreases statuses.len(),
{
    if statuses.len() > 0 {
        let k = statuses.len() - 1;
        let front = reqs.drop_last();
        assert forall|i: int| 0 <= i < statuses.drop_last().len() implies followed(
            #[trigger] front[i],
            i as u64,
            statuses.drop_last()[i],
            locations.drop_last()[i],
            front[i + 1],
        ) by {
            assert(followed(reqs[i], i as u64, statuses[i], locations[i], reqs[i + 1]));
        }
        hops_record_every_target(front, statuses.drop_last(), locations.drop_last());
        assert(followed(reqs[k], k as u64, statuses[k], locations[k], reqs[k + 1]));
        let prev = reqs[k];
        let next = reqs[k + 1];
        assert(front.last() == prev);
        assert forall|i: int| 0 <= i < reqs.len() implies (#[trigger] reqs.last().locations@[i])@
            == reqs[i].url@ by {
            assert(strings_view(next.locations@)[i] == next.locations@[i]@);
            if i < k + 1 {
                assert(strings_view(prev.locations@)[i] == prev.locations@[i]@);
                assert(prev.locations@[i]@ == front[i].url@);
            }
        }
    }
}

/// A POST without a body that a 302 redirects is sent on as a GET without a
/// body and without the headers that describe one.
pub proof fn followed_post_found_becomes_get(prev: Request, n: u64, location: LocationHeader, next: Request)
    requires
        prev.method@ == "POST"@,
        followed(prev, n, 302, location, next),
    ensures
        next.method@ == "GET"@,
        next.body@.len() == 0,
        !has_header(headers_view(next.headers@), "content-type"@),
        !has_header(headers_view(next.headers@), "content-encoding"@),
        !has_header(headers_view(next.headers@), "content-language"@),
        !has_header(headers_view(next.headers@), "content-location"@),
{
    let parts = joined_url(prev.url@, location_text(location))->Some_0;
    post_found_becomes_get(prev, next, parts.0, authority_of(parts.1->Some_0, parts.2));
}

/// A POST that a 307 redirects is sent on as a POST with the same body.
pub proof fn followed_post_temporary_redirect_kept(prev: Request, n: u64, location: LocationHeader, next: Request)
    requires
        prev.method@ == "POST"@,
        followed(prev, n, 307, location, next),
    ensures
        next.method@ == "POST"@,
        next.body@ == prev.body@,
{
    let parts = joined_url(prev.url@, location_text(location))->Some_0;
    post_temporary_redirect_kept(prev, next, parts.0, authority_of(parts.1->Some_0, parts.2));
}

} // verus!
