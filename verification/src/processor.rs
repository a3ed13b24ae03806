//! The request processor: validates a raw request line against the
//! expected route and decides which response variant applies.
//!
//! Only the first line of a request is inspected. The shape check (the
//! line must open with `GET` and close with `HTTP/1.1`) comes before the
//! route check, so a malformed line for an unknown path is still reported
//! as a bad request, never as not-found. Page content is resolved by an
//! outside collaborator; its result is handed in as a plain optional
//! value, and a load failure degrades the response to an internal error.

use vstd::prelude::*;

verus! {

use crate::response::{HttpResponse, ResponseModel};
use crate::text::{
    spec_starts_with,
    spec_ends_with,
    spec_fold,
    starts_with,
    ends_with,
    eq_ignore_ascii_case,
};

/// The request line that matches a route exactly.
pub open spec fn spec_expected_line(path: Seq<char>) -> Seq<char> {
    "GET "@ + path + " HTTP/1.1"@
}

/// The shape test: there is a first line, it opens with `GET` and closes
/// with `HTTP/1.1`.
pub open spec fn spec_shape_ok(lines: Seq<Seq<char>>) -> bool {
    &&& lines.len() > 0
    &&& spec_starts_with(lines[0], "GET"@)
    &&& spec_ends_with(lines[0], "HTTP/1.1"@)
}

/// The route test: the request line equals `GET <path> HTTP/1.1` once
/// ASCII case is folded away.
pub open spec fn spec_route_matches(line: Seq<char>, path: Seq<char>) -> bool {
    spec_fold(line) == spec_fold(spec_expected_line(path))
}

/// How a request relates to the expected route.
#[derive(Clone, Copy, Debug, PartialEq, Eq, Structural)]
pub enum RouteDecision {
    /// The request has no line, or its first line fails the shape test.
    Malformed,
    /// The first line is well shaped but names another route.
    Unknown,
    /// The first line names the expected route.
    Matched,
}

/// The decision the processor owes a request: shape check first, route
/// check second.
pub open spec fn spec_classify(lines: Seq<Seq<char>>, path: Seq<char>) -> RouteDecision {
    if !spec_shape_ok(lines) {
        RouteDecision::Malformed
    } else if !spec_route_matches(lines[0], path) {
        RouteDecision::Unknown
    } else {
        RouteDecision::Matched
    }
}

/// The response the processor owes a request, given the outcome of the
/// page loads: a malformed request is a bad request; an unknown route is
/// not-found, or an internal error when even the not-found page failed to
/// load; a matched route is the page, or an internal error when its load
/// failed.
pub open spec fn spec_process(
    lines: Seq<Seq<char>>,
    path: Seq<char>,
    page: Option<Seq<char>>,
    not_found_page: Option<Seq<char>>,
) -> ResponseModel {
    match spec_classify(lines, path) {
        RouteDecision::Malformed => ResponseModel::BadRequest("Bad Request"@),
        RouteDecision::Unknown => match not_found_page {
            Some(body) => ResponseModel::NotFound(body),
            None => ResponseModel::InternalServerError("Internal Error"@),
        },
        RouteDecision::Matched => match page {
            Some(body) => ResponseModel::Okay(body),
            None => ResponseModel::InternalServerError("Internal Error"@),
        },
    }
}

/// Classifies a request against the expected route, as `spec_classify`
/// describes.
pub fn classify_request(http_request: &Vec<String>, path: &str) -> (r: RouteDecision)
    ensures
        r == spec_classify(http_request.deep_view(), path@),
{
    let ghost lines = http_request.deep_view();
    if http_request.len() == 0 {
        return RouteDecision::Malformed;
    }
    let line: &String = &http_request[0];
    proof {
        assert(lines[0] == line@);
    }
    if !starts_with(line.as_str(), "GET") || !ends_with(line.as_str(), "HTTP/1.1") {
        return RouteDecision::Malformed;
    }
    let expected = String::from_str("GET ").concat(path).concat(" HTTP/1.1");
    proof {
        assert(expected@ =~= spec_expected_line(path@));
    }
    if eq_ignore_ascii_case(line.as_str(), expected.as_str()) {
        RouteDecision::Matched
    } else {
        RouteDecision::Unknown
    }
}

/// The fixed bad-request response.
pub fn get_bad_request_response() -> (r: HttpResponse)
    ensures
        r@ == ResponseModel::BadRequest("Bad Request"@),
{
    HttpResponse::BadRequest(String::from_str("Bad Request"))
}

/// The fixed internal-error response.
pub fn get_internal_server_error_response() -> (r: HttpResponse)
    ensures
        r@ == ResponseModel::InternalServerError("Internal Error"@),
{
    HttpResponse::InternalServerError(String::from_str("Internal Error"))
}

/// The not-found response carrying the loaded not-found page, degraded to
/// an internal error when that load failed.
pub fn get_not_found_response(content: Option<String>) -> (r: HttpResponse)
    ensures
        r@ == match content {
            Some(body) => ResponseModel::NotFound(body@),
            None => ResponseModel::InternalServerError("Internal Error"@),
        },
{
    match content {
        Some(body) => HttpResponse::NotFound(body),
        None => get_internal_server_error_response(),
    }
}

/// Produces the response a request is owed, as `spec_process` describes.
///
/// `page` and `not_found_page` are the outcomes of loading the success
/// page and the not-found page; only the one the decision calls for is
/// looked at.
pub fn process_request(
    http_request: &Vec<String>,
    path: &str,
    page: Option<String>,
    not_found_page: Option<String>,
) -> (r: HttpResponse)
    ensures
        r@ == spec_process(
            http_request.deep_view(),
            path@,
            page.deep_view(),
            not_found_page.deep_view(),
        ),
{
    match classify_request(http_request, path) {
        RouteDecision::Malformed => get_bad_request_response(),
        RouteDecision::Unknown => get_not_found_response(not_found_page),
        RouteDecision::Matched => match page {
            Some(content) => HttpResponse::Okay(content),
            None => get_internal_server_error_response(),
        },
    }
}

} // verus!
