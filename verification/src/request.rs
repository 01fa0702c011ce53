use vstd::prelude::*;
use vstd::string::*;
use crate::text::{pair_texts, texts};
use crate::url::{build_url, url_text, Host};

verus! {

/// The verb of a request.
#[derive(Clone, Copy, Debug, PartialEq, Eq, Structural)]
pub enum Method {
    Get,
    Post,
    Put,
    Delete,
}

/// What a request carries, already encoded.
#[derive(Clone, Debug, PartialEq, Eq)]
pub enum Body {
    /// Nothing.
    Empty,
    /// The pairs of a form, as `application/x-www-form-urlencoded` text.
    Form(String),
    /// A JSON document, as text.
    Json(String),
}

/// A body as contracts see it.
pub enum BodyView {
    Empty,
    Form(Seq<char>),
    Json(Seq<char>),
}

impl View for Body {
    type V = BodyView;

    open spec fn view(&self) -> BodyView {
        match self {
            Body::Empty => BodyView::Empty,
            Body::Form(text) => BodyView::Form(text@),
            Body::Json(text) => BodyView::Json(text@),
        }
    }
}

/// The `Content-Type` that goes with a body: none where there is no body.
pub open spec fn content_type_of(body: BodyView) -> Option<Seq<char>> {
    match body {
        BodyView::Empty => None,
        BodyView::Form(_) => Some("application/x-www-form-urlencoded"@),
        BodyView::Json(_) => Some("application/json"@),
    }
}

impl Body {
    /// The value of the `Content-Type` header to send with this body, if any.
    pub fn content_type(&self) -> (header: Option<&'static str>)
        ensures
            match content_type_of(self@) {
                Some(text) => header matches Some(value) && value@ == text,
                None => header is None,
            },
    {
        match self {
            Body::Empty => None,
            Body::Form(_) => Some("application/x-www-form-urlencoded"),
            Body::Json(_) => Some("application/json"),
        }
    }
}

/// The seconds after which a request to the REST service is given up.
pub const DEFAULT_TIMEOUT_SECONDS: u64 = 30;

/// The timeout of a request to `host`, in seconds: `None` for no timeout. A stream
/// does not end, so a request for one is never given up.
pub open spec fn timeout_of(host: Host) -> Option<u64> {
    match host {
        Host::Rest => Some(DEFAULT_TIMEOUT_SECONDS),
        Host::Stream => None,
    }
}

/// One HTTP request, ready to be sent: nothing in it remains to be encoded.
#[derive(Clone, Debug, PartialEq, Eq)]
pub struct Request {
    pub method: Method,
    pub url: String,
    pub body: Body,
    /// Seconds after which to give up, or `None` to wait without limit.
    pub timeout: Option<u64>,
}

/// A request as contracts see it.
pub struct RequestView {
    pub method: Method,
    pub url: Seq<char>,
    pub body: BodyView,
    pub timeout: Option<u64>,
}

impl View for Request {
    type V = RequestView;

    open spec fn view(&self) -> RequestView {
        RequestView {
            method: self.method,
            url: self.url@,
            body: self.body@,
            timeout: self.timeout,
        }
    }
}

/// The request that an operation stands for: its method, the URL made of the host,
/// the encoded path segments and the encoded query pairs, its body, and the timeout
/// that goes with the host.
pub open spec fn request_view(
    method: Method,
    host: Host,
    segments: Seq<Seq<char>>,
    query: Seq<(Seq<char>, Seq<char>)>,
    body: BodyView,
) -> RequestView {
    RequestView { method, url: url_text(host, segments, query), body, timeout: timeout_of(host) }
}

/// Only requests to the streaming service wait without limit; those to the REST
/// service are given up after a finite time.
pub proof fn law_timeouts(
    method: Method,
    host: Host,
    segments: Seq<Seq<char>>,
    query: Seq<(Seq<char>, Seq<char>)>,
    body: BodyView,
)
    ensures
        request_view(method, host, segments, query, body).timeout is None <==> host
            == Host::Stream,
        host == Host::Rest ==> request_view(method, host, segments, query, body).timeout
            == Some(DEFAULT_TIMEOUT_SECONDS),
{
}

/// Builds the request of an operation from its parts.
pub fn prepare(
    method: Method,
    host: Host,
    segments: &Vec<&str>,
    query: &Vec<(&str, &str)>,
    body: Body,
) -> (request: Request)
    ensures
        request@ == request_view(method, host, texts(segments@), pair_texts(query@), body@),
{
    let url = build_url(host, segments, query);
    let timeout = match host {
        Host::Rest => Some(DEFAULT_TIMEOUT_SECONDS),
        Host::Stream => None,
    };
    Request { method, url, body, timeout }
}

} // verus!
