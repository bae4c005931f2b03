//! What a handler answers: an HTTP status code and the envelope that becomes
//! the JSON body.

use crate::model::{QuoteModelResponse, QuoteModelResponseView};
use crate::text::{decimal, decimal_string};
use vstd::prelude::*;

verus! {

/// 200 OK.
pub const OK: u16 = 200;

/// 204 No Content.
pub const NO_CONTENT: u16 = 204;

/// 400 Bad Request.
pub const BAD_REQUEST: u16 = 400;

/// 404 Not Found.
pub const NOT_FOUND: u16 = 404;

/// 500 Internal Server Error.
pub const INTERNAL_SERVER_ERROR: u16 = 500;

/// The body of an answer. All but `Empty` become a JSON object with a
/// `status` field and either a `result` or a `message`.
#[derive(Debug, Clone, PartialEq, Eq)]
pub enum Envelope {
    /// No body at all.
    Empty,
    /// `{status: "success", result: <text>}`
    Text(String),
    /// `{status: "success", result: <quote>}`
    Quote(QuoteModelResponse),
    /// `{status: "fail", message: <text>}`: the request cannot be served as it is.
    Fail(String),
    /// `{status: "error", message: <text>}`: the service could not do its part.
    Error(String),
}

/// An answer to a request.
#[derive(Debug, Clone, PartialEq, Eq)]
pub struct ApiResponse {
    pub code: u16,
    pub body: Envelope,
}

/// What an envelope means.
pub ghost enum EnvelopeView {
    Empty,
    Text(Seq<char>),
    Quote(QuoteModelResponseView),
    Fail(Seq<char>),
    Error(Seq<char>),
}

/// What an answer means.
pub ghost struct ApiResponseView {
    pub code: int,
    pub body: EnvelopeView,
}

impl View for Envelope {
    type V = EnvelopeView;

    open spec fn view(&self) -> EnvelopeView {
        match self {
            Envelope::Empty => EnvelopeView::Empty,
            Envelope::Text(t) => EnvelopeView::Text(t@),
            Envelope::Quote(q) => EnvelopeView::Quote(q@),
            Envelope::Fail(m) => EnvelopeView::Fail(m@),
            Envelope::Error(m) => EnvelopeView::Error(m@),
        }
    }
}

impl View for ApiResponse {
    type V = ApiResponseView;

    open spec fn view(&self) -> ApiResponseView {
        ApiResponseView { code: self.code as int, body: self.body@ }
    }
}

impl EnvelopeView {
    /// The `status` field of the JSON body, where there is a body.
    pub open spec fn status(self) -> Option<Seq<char>> {
        match self {
            EnvelopeView::Empty => None,
            EnvelopeView::Text(_) => Some("success"@),
            EnvelopeView::Quote(_) => Some("success"@),
            EnvelopeView::Fail(_) => Some("fail"@),
            EnvelopeView::Error(_) => Some("error"@),
        }
    }
}

/// The message that says that no quote has the id.
pub open spec fn not_found_text(id: int) -> Seq<char> {
    "Quote with ID: "@ + decimal(id) + " not found"@
}

/// The message for a failed write: the storage layer's own words after a
/// fixed prefix.
pub open spec fn write_failure_text(detail: Seq<char>) -> Seq<char> {
    "Internal server error: "@ + detail
}

impl ApiResponseView {
    /// 200 with a text as the result.
    pub open spec fn text(result: Seq<char>) -> ApiResponseView {
        ApiResponseView { code: 200, body: EnvelopeView::Text(result) }
    }

    /// 200 with a quote as the result.
    pub open spec fn quote(result: QuoteModelResponseView) -> ApiResponseView {
        ApiResponseView { code: 200, body: EnvelopeView::Quote(result) }
    }

    /// 204 without a body.
    pub open spec fn no_content() -> ApiResponseView {
        ApiResponseView { code: 204, body: EnvelopeView::Empty }
    }

    /// 400: the quote is in the table already.
    pub open spec fn conflict() -> ApiResponseView {
        ApiResponseView { code: 400, body: EnvelopeView::Fail("Quote already exists"@) }
    }

    /// 404: no quote has this id.
    pub open spec fn not_found(id: int) -> ApiResponseView {
        ApiResponseView { code: 404, body: EnvelopeView::Fail(not_found_text(id)) }
    }

    /// 500 with a message.
    pub open spec fn internal_error(message: Seq<char>) -> ApiResponseView {
        ApiResponseView { code: 500, body: EnvelopeView::Error(message) }
    }
}

impl Envelope {
    /// The `status` field of the JSON body, where there is a body.
    pub fn status(&self) -> (s: Option<&'static str>)
        ensures
            s is Some <==> self@.status() is Some,
            s matches Some(t) ==> t@ == self@.status()->0,
    {
        match self {
            Envelope::Empty => None,
            Envelope::Text(_) => Some("success"),
            Envelope::Quote(_) => Some("success"),
            Envelope::Fail(_) => Some("fail"),
            Envelope::Error(_) => Some("error"),
        }
    }
}

impl ApiResponse {
    /// 200 with a text as the result.
    pub fn text(result: String) -> (r: ApiResponse)
        ensures
            r@ == ApiResponseView::text(result@),
    {
        ApiResponse { code: OK, body: Envelope::Text(result) }
    }

    /// 200 with a quote as the result.
    pub fn quote(result: QuoteModelResponse) -> (r: ApiResponse)
        ensures
            r@ == ApiResponseView::quote(result@),
    {
        ApiResponse { code: OK, body: Envelope::Quote(result) }
    }

    /// 204 without a body.
    pub fn no_content() -> (r: ApiResponse)
        ensures
            r@ == ApiResponseView::no_content(),
    {
        ApiResponse { code: NO_CONTENT, body: Envelope::Empty }
    }

    /// 400: the quote is in the table already.
    pub fn conflict() -> (r: ApiResponse)
        ensures
            r@ == ApiResponseView::conflict(),
    {
        ApiResponse {
            code: BAD_REQUEST,
            body: Envelope::Fail(String::from_str("Quote already exists")),
        }
    }

    /// 404: no quote has this id. The message names the id.
    pub fn not_found(id: i32) -> (r: ApiResponse)
        ensures
            r@ == ApiResponseView::not_found(id as int),
    {
        let mut message = String::from_str("Quote with ID: ");
        let number = decimal_string(id);
        message.append(number.as_str());
        message.append(" not found");
        ApiResponse { code: NOT_FOUND, body: Envelope::Fail(message) }
    }

    /// 500 with a message.
    pub fn internal_error(message: String) -> (r: ApiResponse)
        ensures
            r@ == ApiResponseView::internal_error(message@),
    {
        ApiResponse { code: INTERNAL_SERVER_ERROR, body: Envelope::Error(message) }
    }

    /// 500 for a write that storage refused: the storage layer's words after
    /// a fixed prefix.
    pub fn write_failure(detail: &str) -> (r: ApiResponse)
        ensures
            r@ == ApiResponseView::internal_error(write_failure_text(detail@)),
    {
        let mut message = String::from_str("Internal server error: ");
        message.append(detail);
        ApiResponse::internal_error(message)
    }
}

} // verus!
