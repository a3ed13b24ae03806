//! The HTTP response model and its canonical wire serialization.
//!
//! A response is one of a closed set of variants, each pairing a fixed
//! status line with a body. Serialization is pure and total: status line,
//! a `Content-Length` header holding the exact byte length of the body,
//! a fixed `Content-Type` header, a blank line, and the body.

use vstd::prelude::*;

verus! {

use vstd::utf8::encode_utf8;
use crate::text::{spec_decimal, spec_starts_with, spec_ends_with, format_usize};

/// An HTTP response: an outcome variant carrying the page body it is sent
/// with.
pub enum HttpResponse {
    Okay(String),
    BadRequest(String),
    InternalServerError(String),
    NotFound(String),
}

/// The mathematical model of a response: the same variants over character
/// sequences.
pub enum ResponseModel {
    Okay(Seq<char>),
    BadRequest(Seq<char>),
    InternalServerError(Seq<char>),
    NotFound(Seq<char>),
}

impl View for HttpResponse {
    type V = ResponseModel;

    open spec fn view(&self) -> ResponseModel {
        match self {
            HttpResponse::Okay(body) => ResponseModel::Okay(body@),
            HttpResponse::BadRequest(body) => ResponseModel::BadRequest(body@),
            HttpResponse::InternalServerError(body) => ResponseModel::InternalServerError(body@),
            HttpResponse::NotFound(body) => ResponseModel::NotFound(body@),
        }
    }
}

/// The fixed status line of each response variant.
pub open spec fn spec_status_line(m: ResponseModel) -> Seq<char> {
    match m {
        ResponseModel::Okay(_) => "HTTP/1.1 200 OK"@,
        ResponseModel::BadRequest(_) => "HTTP/1.1 400 Bad Request"@,
        ResponseModel::InternalServerError(_) => "HTTP/1.1 500 Internal Server Error"@,
        ResponseModel::NotFound(_) => "HTTP/1.1 404 Not Found"@,
    }
}

/// The body a response carries.
pub open spec fn spec_response_body(m: ResponseModel) -> Seq<char> {
    match m {
        ResponseModel::Okay(body) => body,
        ResponseModel::BadRequest(body) => body,
        ResponseModel::InternalServerError(body) => body,
        ResponseModel::NotFound(body) => body,
    }
}

/// The byte length of a body: the length of its UTF-8 encoding, not its
/// character count.
pub open spec fn spec_body_byte_len(m: ResponseModel) -> nat {
    encode_utf8(spec_response_body(m)).len()
}

/// The serialized form of a response.
pub open spec fn spec_serialize(m: ResponseModel) -> Seq<char> {
    spec_status_line(m) + "\r\nContent-Length: "@ + spec_decimal(spec_body_byte_len(m))
        + "\r\nContent-Type: text/html\r\n\r\n"@ + spec_response_body(m)
}

impl HttpResponse {
    /// The status line of this response.
    pub fn status_line(&self) -> (r: &'static str)
        ensures
            r@ == spec_status_line(self@),
    {
        match self {
            HttpResponse::Okay(_) => "HTTP/1.1 200 OK",
            HttpResponse::BadRequest(_) => "HTTP/1.1 400 Bad Request",
            HttpResponse::InternalServerError(_) => "HTTP/1.1 500 Internal Server Error",
            HttpResponse::NotFound(_) => "HTTP/1.1 404 Not Found",
        }
    }

    /// The body of this response.
    pub fn body(&self) -> (r: &String)
        ensures
            r@ == spec_response_body(self@),
    {
        match self {
            HttpResponse::Okay(body) => body,
            HttpResponse::BadRequest(body) => body,
            HttpResponse::InternalServerError(body) => body,
            HttpResponse::NotFound(body) => body,
        }
    }

    /// Serializes this response to its wire form.
    ///
    /// The body's byte length must fit in `usize`, which holds of any body
    /// an allocator can produce.
    pub fn into_string(&self) -> (r: String)
        requires
            spec_body_byte_len(self@) <= usize::MAX,
        ensures
            r@ == spec_serialize(self@),
    {
        let status: &'static str = self.status_line();
        let body: &String = self.body();
        let length: usize = body.as_str().len();
        let mut r = String::from_str(status);
        r.append("\r\nContent-Length: ");
        let digits = format_usize(length);
        r.append(digits.as_str());
        r.append("\r\nContent-Type: text/html\r\n\r\n");
        r.append(body.as_str());
        proof {
            assert(r@ =~= spec_serialize(self@));
        }
        r
    }
}

/// Serialization is faithful to the wire layout: the serialized text opens
/// with the status line of the variant, exactly as the fixed table gives
/// it, closes with the body, and the characters after `Content-Length: `
/// spell the decimal byte length of the body.
pub proof fn lemma_serialization_round_trip(m: ResponseModel)
    ensures
        spec_starts_with(spec_serialize(m), spec_status_line(m) + "\r\nContent-Length: "@),
        spec_ends_with(spec_serialize(m), spec_response_body(m)),
        m matches ResponseModel::Okay(_) ==> spec_status_line(m) == "HTTP/1.1 200 OK"@,
        m matches ResponseModel::BadRequest(_) ==> spec_status_line(m)
            == "HTTP/1.1 400 Bad Request"@,
        m matches ResponseModel::InternalServerError(_) ==> spec_status_line(m)
            == "HTTP/1.1 500 Internal Server Error"@,
        m matches ResponseModel::NotFound(_) ==> spec_status_line(m) == "HTTP/1.1 404 Not Found"@,
        ({
            let head = spec_status_line(m) + "\r\nContent-Length: "@;
            let digits = spec_decimal(spec_body_byte_len(m));
            spec_serialize(m).subrange(head.len() as int, (head.len() + digits.len()) as int) == digits
        }),
{
    let head = spec_status_line(m) + "\r\nContent-Length: "@;
    let digits = spec_decimal(spec_body_byte_len(m));
    let body = spec_response_body(m);
    let s = spec_serialize(m);
    assert(s.subrange(0, head.len() as int) =~= head);
    assert(s.subrange(head.len() as int, (head.len() + digits.len()) as int) =~= digits);
    assert(s.subrange(s.len() - body.len(), s.len() as int) =~= body);
}

/// The status line alone already tells the variants apart: two responses
/// with the same status line are of the same variant.
pub proof fn lemma_status_line_determines_variant(a: ResponseModel, b: ResponseModel)
    requires
        spec_status_line(a) == spec_status_line(b),
    ensures
        (a matches ResponseModel::Okay(_)) <==> (b matches ResponseModel::Okay(_)),
        (a matches ResponseModel::BadRequest(_)) <==> (b matches ResponseModel::BadRequest(_)),
        (a matches ResponseModel::InternalServerError(_)) <==> (b matches
            ResponseModel::InternalServerError(_)),
        (a matches ResponseModel::NotFound(_)) <==> (b matches ResponseModel::NotFound(_)),
{
    reveal_strlit("HTTP/1.1 200 OK");
    reveal_strlit("HTTP/1.1 400 Bad Request");
    reveal_strlit("HTTP/1.1 500 Internal Server Error");
    reveal_strlit("HTTP/1.1 404 Not Found");
    assert("HTTP/1.1 200 OK"@.len() == 15);
    assert("HTTP/1.1 400 Bad Request"@.len() == 24);
    assert("HTTP/1.1 500 Internal Server Error"@.len() == 34);
    assert("HTTP/1.1 404 Not Found"@.len() == 22);
}

} // verus!
