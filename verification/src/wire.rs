//! The HTTP vocabulary the endpoint layer is written against: requests,
//! responses, methods and transport errors are the values of `http` and
//! `hyper`, carried through as opaque values.
//!
//! The declarations, names and wrappers of this module are trusted: their
//! contracts state what the `http` and `hyper` crates do and are not proved.
use vstd::prelude::*;

verus! {

/// An incoming request as the transport layer hands it over.
pub type HttpRequest = http::Request<hyper::Body>;

/// A wire-level response as the transport layer sends it.
pub type HttpResponse = http::Response<hyper::Body>;

/// `http::Method`, opaque to the verifier.
#[verifier::external_type_specification]
#[verifier::external_body]
pub struct ExMethod(http::Method);

/// `http::Request<T>`, opaque to the verifier.
#[verifier::external_type_specification]
#[verifier::external_body]
#[verifier::reject_recursive_types(T)]
pub struct ExRequest<T>(http::Request<T>);

/// `http::Response<T>`, opaque to the verifier.
#[verifier::external_type_specification]
#[verifier::external_body]
#[verifier::reject_recursive_types(T)]
pub struct ExResponse<T>(http::Response<T>);

/// `hyper::Body`, opaque to the verifier.
#[verifier::external_type_specification]
#[verifier::external_body]
pub struct ExBody(hyper::Body);

/// `hyper::Error`, opaque to the verifier.
#[verifier::external_type_specification]
#[verifier::external_body]
pub struct ExError(hyper::Error);

/// The text that `http::Method::as_str` returns for a method: `"GET"` for
/// `Method::GET`, and so on.
pub uninterp spec fn method_text(method: http::Method) -> Seq<char>;

/// The number that `http::Response::status` returns for a response, as
/// `StatusCode::as_u16` gives it.
pub uninterp spec fn response_status(response: http::Response<hyper::Body>) -> u16;

/// The number of header values that the `headers` of a response hold, as
/// `HeaderMap::len` gives it: zero for a response without headers.
pub uninterp spec fn response_header_count(response: http::Response<hyper::Body>) -> usize;

/// The exact length in bytes that the body of a response announces, as the
/// `size_hint` of `hyper::Body` gives it through `SizeHint::exact`; `None`
/// where the body does not know its length in advance.
pub uninterp spec fn response_body_size(response: http::Response<hyper::Body>) -> Option<u64>;

/// The status code of a successful response.
pub const OK: u16 = 200;

/// The status code of a response to a request that nothing answers.
pub const NOT_FOUND: u16 = 404;

/// A response is blank with a status when it carries that status, no
/// headers and a body of exactly zero bytes.
pub open spec fn is_blank(response: HttpResponse, status: u16) -> bool {
    &&& response_status(response) == status
    &&& response_header_count(response) == 0
    &&& response_body_size(response) == Some(0u64)
}

/// Trusted: `http::Method::GET` is the method whose text is `GET`.
#[verifier::external_body]
pub(crate) fn verb_get() -> (method: http::Method)
    ensures
        method_text(method) == "GET"@,
{
    http::Method::GET
}

/// Trusted: `http::Method::POST` is the method whose text is `POST`.
#[verifier::external_body]
pub(crate) fn verb_post() -> (method: http::Method)
    ensures
        method_text(method) == "POST"@,
{
    http::Method::POST
}

/// Trusted: `http::Method::PUT` is the method whose text is `PUT`.
#[verifier::external_body]
pub(crate) fn verb_put() -> (method: http::Method)
    ensures
        method_text(method) == "PUT"@,
{
    http::Method::PUT
}

/// Trusted: `http::Method::PATCH` is the method whose text is `PATCH`.
#[verifier::external_body]
pub(crate) fn verb_patch() -> (method: http::Method)
    ensures
        method_text(method) == "PATCH"@,
{
    http::Method::PATCH
}

/// Trusted: `http::Method::DELETE` is the method whose text is `DELETE`.
#[verifier::external_body]
pub(crate) fn verb_delete() -> (method: http::Method)
    ensures
        method_text(method) == "DELETE"@,
{
    http::Method::DELETE
}

/// Trusted: `http::Method::HEAD` is the method whose text is `HEAD`.
#[verifier::external_body]
pub(crate) fn verb_head() -> (method: http::Method)
    ensures
        method_text(method) == "HEAD"@,
{
    http::Method::HEAD
}

/// Trusted: `http::Response::builder()` with `status` set to the given code
/// and `body` given `hyper::Body::default()` yields a response with that
/// status, with the empty header map the builder starts from, and with the
/// empty body, whose size hint is exactly zero. The builder refuses codes
/// below 100 and from 1000 on, which `requires` leaves out.
#[verifier::external_body]
pub(crate) fn blank_response(status: u16) -> (response: HttpResponse)
    requires
        100 <= status < 1000,
    ensures
        response_status(response) == status,
        response_header_count(response) == 0,
        response_body_size(response) == Some(0u64),
{
    http::Response::builder().status(status).body(hyper::Body::default()).unwrap()
}

} // verus!
