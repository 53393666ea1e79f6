//! Answers: status, headers, body and cache policy.

use serde_json::Value;
use vstd::prelude::*;
use vstd::string::*;
use crate::json;
use crate::json::JsonView;
use crate::store::StoreError;
use crate::store::StoreErrorView;
use crate::text;
use crate::time;
use crate::time::Timestamp;

verus! {

/// Cache strategy for a response.
#[derive(Debug, Clone, Copy, PartialEq, Eq, Structural)]
pub enum CachePolicy {
    /// Current-state response (default): short cache with revalidation.
    Current,
    /// Point-in-time or immutable-document response: the body is fixed for a
    /// given input.
    PointInTime,
    /// Mutation response: never store.
    NoStore,
}

/// The `cache-control` header value for a policy.
pub open spec fn cache_control(c: CachePolicy) -> Seq<char> {
    match c {
        CachePolicy::Current => "public, max-age=30, must-revalidate"@,
        CachePolicy::PointInTime => "public, max-age=86400, immutable"@,
        CachePolicy::NoStore => "no-store"@,
    }
}

impl CachePolicy {
    /// The `cache-control` header value for this policy.
    pub fn header_value(self) -> (r: &'static str)
        ensures
            r@ == cache_control(self),
    {
        match self {
            CachePolicy::Current => "public, max-age=30, must-revalidate",
            CachePolicy::PointInTime => "public, max-age=86400, immutable",
            CachePolicy::NoStore => "no-store",
        }
    }
}

/// The policy for an answer as of an instant, or as of now.
pub open spec fn policy_at(at: Option<Timestamp>) -> CachePolicy {
    match at {
        Some(_) => CachePolicy::PointInTime,
        None => CachePolicy::Current,
    }
}

/// The policy for an answer as of an instant, or as of now.
pub fn cache_for(at: Option<Timestamp>) -> (r: CachePolicy)
    ensures
        r == policy_at(at),
{
    if at.is_some() {
        CachePolicy::PointInTime
    } else {
        CachePolicy::Current
    }
}

/// An answer.
#[derive(Debug)]
pub struct ApiResponse {
    pub status: u16,
    /// Header names and values, in the order in which they are set.
    pub headers: Vec<(String, String)>,
    pub body: String,
}

/// The content of an answer.
#[verifier::ext_equal]
pub struct ResponseView {
    pub status: u16,
    pub headers: Seq<(Seq<char>, Seq<char>)>,
    pub body: Seq<char>,
}

impl View for ApiResponse {
    type V = ResponseView;

    open spec fn view(&self) -> ResponseView {
        ResponseView {
            status: self.status,
            headers: self.headers.deep_view(),
            body: self.body@,
        }
    }
}

impl DeepView for ApiResponse {
    type V = ResponseView;

    open spec fn deep_view(&self) -> ResponseView {
        self@
    }
}

/// An answer with the given headers and, after them, the cache policy.
pub open spec fn answer(
    status: u16,
    headers: Seq<(Seq<char>, Seq<char>)>,
    body: Seq<char>,
    cache: CachePolicy,
) -> ResponseView {
    ResponseView {
        status,
        headers: headers.push(("cache-control"@, cache_control(cache))),
        body,
    }
}

/// A JSON answer: the indented document, stamped with an instant.
pub open spec fn json_answer(
    status: u16,
    doc: JsonView,
    as_of: Timestamp,
    cache: CachePolicy,
) -> ResponseView {
    answer(
        status,
        seq![
            ("content-type"@, "application/json"@),
            ("x-as-of"@, time::stamp_text(as_of)),
        ],
        json::pretty_text(doc),
        cache,
    )
}

/// The document of an error.
pub open spec fn error_document(msg: Seq<char>) -> JsonView {
    JsonView::Obj(map!["error"@ => JsonView::Str(msg)])
}

/// An error answer, which is never stored.
pub open spec fn error_answer(status: u16, msg: Seq<char>, now: Timestamp) -> ResponseView {
    json_answer(status, error_document(msg), now, CachePolicy::NoStore)
}

/// The answer to a failure of the store.
pub open spec fn store_error_answer(e: StoreErrorView, now: Timestamp) -> ResponseView {
    match e {
        StoreErrorView::Journal(m) => error_answer(500, "storage integrity failure: "@ + m, now),
        StoreErrorView::Conflict(m) => error_answer(409, m, now),
    }
}

/// Whether a request may use the guarded part of the surface: no token is
/// configured, or the request carries it.
pub open spec fn authorized(token: Option<Seq<char>>, authorization: Option<Seq<char>>) -> bool {
    match token {
        Some(t) => authorization == Some("Bearer "@ + t),
        None => true,
    }
}

/// The answer to a request that may not use the guarded part of the surface.
pub open spec fn unauthorized_answer(now: Timestamp) -> ResponseView {
    error_answer(401, "unauthorized"@, now)
}

/// Add a header.
pub(crate) fn set_header(headers: &mut Vec<(String, String)>, name: &str, value: String)
    ensures
        final(headers).deep_view() == old(headers).deep_view().push((name@, value@)),
{
    headers.push((name.to_owned(), value));
    proof {
        assert(headers.deep_view() =~= old(headers).deep_view().push((name@, value@)));
    }
}

/// An answer with the given headers and, after them, the cache policy.
pub fn build_response(
    status: u16,
    headers: Vec<(String, String)>,
    body: String,
    cache: CachePolicy,
) -> (r: ApiResponse)
    ensures
        r@ == answer(status, headers.deep_view(), body@, cache),
{
    let mut headers = headers;
    set_header(&mut headers, "cache-control", cache.header_value().to_owned());
    ApiResponse { status, headers, body }
}

/// A JSON answer: the indented document, stamped with an instant.
pub fn json_response(status: u16, doc: &Value, as_of: Timestamp, cache: CachePolicy) -> (r:
    ApiResponse)
    ensures
        r@ == json_answer(status, json::json_of(*doc), as_of, cache),
{
    let mut headers: Vec<(String, String)> = Vec::new();
    set_header(&mut headers, "content-type", "application/json".to_owned());
    set_header(&mut headers, "x-as-of", as_of.to_string());
    proof {
        assert(headers.deep_view() =~= seq![
            ("content-type"@, "application/json"@),
            ("x-as-of"@, time::stamp_text(as_of)),
        ]);
    }
    build_response(status, headers, json::pretty(doc), cache)
}

/// An error answer, which is never stored.
pub fn error_response(status: u16, msg: &str, now: Timestamp) -> (r: ApiResponse)
    ensures
        r@ == error_answer(status, msg@, now),
{
    let mut e = json::entries();
    json::put(&mut e, "error", json::text(msg));
    json_response(status, &json::object(e), now, CachePolicy::NoStore)
}

pub fn bad_request(msg: &str, now: Timestamp) -> (r: ApiResponse)
    ensures
        r@ == error_answer(400, msg@, now),
{
    error_response(400, msg, now)
}

pub fn not_found(msg: &str, now: Timestamp) -> (r: ApiResponse)
    ensures
        r@ == error_answer(404, msg@, now),
{
    error_response(404, msg, now)
}

/// The answer to a failure of the store.
pub fn store_error(e: StoreError, now: Timestamp) -> (r: ApiResponse)
    ensures
        r@ == store_error_answer(e.deep_view(), now),
{
    match e {
        StoreError::Journal(m) => error_response(
            500,
            &text::cat2("storage integrity failure: ", &m),
            now,
        ),
        StoreError::Conflict(m) => error_response(409, &m, now),
    }
}

/// Refuse a request that may not use the guarded part of the surface.
pub fn require_admin(token: &Option<String>, authorization: Option<&str>, now: Timestamp) -> (r:
    Option<ApiResponse>)
    ensures
        r.deep_view() == if authorized(token.deep_view(), authorization.deep_view()) {
            None
        } else {
            Some(unauthorized_answer(now))
        },
{
    let expected = match token {
        Some(t) => text::cat2("Bearer ", t),
        None => {
            return None;
        },
    };
    match authorization {
        Some(got) => {
            if text::same_text(got, &expected) {
                return None;
            }
        },
        None => {},
    }
    Some(error_response(401, "unauthorized", now))
}

} // verus!
