//! The parts of response handling that both pipelines share: the success
//! range of status codes, the structured error envelope
//! `{"error": {"message": .., "type": .., "code": ..}}`, and the message
//! that an error carries when the body holds no such envelope.

use vstd::prelude::*;
use vstd::utf8::{decode_utf8, valid_utf8};
use crate::json::{
    Field, JsonTree, json_document, json_tree, object_field, optional, parse_document, read_object,
    read_text, settled, text_field,
};

verus! {

/// Whether a status code reports success: 200 to 299.
pub open spec fn is_success_status(status: u16) -> bool {
    200 <= status <= 299
}

/// Whether `status` lies in the success range.
pub fn is_success(status: u16) -> (r: bool)
    ensures
        r == is_success_status(status),
{
    200 <= status && status <= 299
}

/// The inner record of an error envelope.
#[derive(Debug, Clone)]
pub struct ApiErrorDetail {
    pub message: String,
    pub error_type: Option<String>,
    pub code: Option<String>,
}

/// An error envelope as the remote side sends it.
#[derive(Debug, Clone)]
pub struct ApiErrorResponse {
    pub error: ApiErrorDetail,
}

/// Model of an [`ApiErrorDetail`].
pub struct ErrorDetail {
    pub message: Seq<char>,
    pub error_type: Option<Seq<char>>,
    pub code: Option<Seq<char>>,
}

impl View for ApiErrorDetail {
    type V = ErrorDetail;

    open spec fn view(&self) -> ErrorDetail {
        ErrorDetail {
            message: self.message@,
            error_type: self.error_type.deep_view(),
            code: self.code.deep_view(),
        }
    }
}

impl View for ApiErrorResponse {
    type V = ErrorDetail;

    open spec fn view(&self) -> ErrorDetail {
        self.error@
    }
}

/// The envelope that a document holds, if it holds one: an object whose
/// member `error` is an object with a text `message`, and with `type` and
/// `code` left out, `null` or text.
pub open spec fn envelope_in(document: JsonTree) -> Option<ErrorDetail> {
    match object_field(document, "error"@) {
        Field::Present(inner) => {
            let message = text_field(inner, "message"@);
            let error_type = text_field(inner, "type"@);
            let code = text_field(inner, "code"@);
            if message is Present && !(error_type is Mismatch) && !(code is Mismatch) {
                Some(
                    ErrorDetail {
                        message: message->Present_0,
                        error_type: optional(error_type),
                        code: optional(code),
                    },
                )
            } else {
                None
            }
        },
        _ => None,
    }
}

/// The envelope that a body holds: none where the body is no JSON.
pub open spec fn envelope_of(body: Seq<u8>) -> Option<ErrorDetail> {
    match json_document(body) {
        Ok(document) => envelope_in(document),
        Err(_) => None,
    }
}

/// Model of an optional envelope.
pub open spec fn envelope_view(r: Option<ApiErrorResponse>) -> Option<ErrorDetail> {
    match r {
        Some(envelope) => Some(envelope@),
        None => None,
    }
}

impl ApiErrorResponse {
    /// Reads the envelope out of a parsed document.
    pub fn from_document(document: &serde_json::Value) -> (r: Option<ApiErrorResponse>)
        ensures
            envelope_view(r) == envelope_in(json_tree(*document)),
    {
        match read_object(document, "error") {
            Field::Present(inner) => {
                let message = read_text(inner, "message");
                let error_type = read_text(inner, "type");
                let code = read_text(inner, "code");
                match (message, error_type, code) {
                    (Field::Present(_), Field::Mismatch, _) => None,
                    (Field::Present(_), _, Field::Mismatch) => None,
                    (Field::Present(message), error_type, code) => Some(
                        ApiErrorResponse {
                            error: ApiErrorDetail {
                                message,
                                error_type: settled(error_type),
                                code: settled(code),
                            },
                        },
                    ),
                    _ => None,
                }
            },
            _ => None,
        }
    }

    /// Reads the envelope out of a response body.
    pub fn from_json(body: &[u8]) -> (r: Option<ApiErrorResponse>)
        ensures
            envelope_view(r) == envelope_of(body@),
    {
        match parse_document(body) {
            Ok(document) => ApiErrorResponse::from_document(&document),
            Err(_) => None,
        }
    }
}

/// What `String::from_utf8_lossy` makes of `bytes`.
pub uninterp spec fn utf8_lossy(bytes: Seq<u8>) -> Seq<char>;

/// Calls `String::from_utf8_lossy` and takes the string out of the `Cow`.
/// The contract names the text and adds what the documentation says of
/// well-formed input: it comes back as it is.
#[verifier::external_body]
pub(crate) fn lossy_text(bytes: &[u8]) -> (r: String)
    ensures
        r@ == utf8_lossy(bytes@),
        valid_utf8(bytes@) ==> r@ == decode_utf8(bytes@),
{
    String::from_utf8_lossy(bytes).into_owned()
}

/// The message of the error that a failed call gives: the envelope's
/// `message` where the body holds an envelope, else the body itself read
/// permissively as text.
pub open spec fn failure_message_of(body: Seq<u8>) -> Seq<char> {
    match envelope_of(body) {
        Some(envelope) => envelope.message,
        None => utf8_lossy(body),
    }
}

/// The message that goes with an envelope, or with its absence. Without an
/// envelope, a body of well-formed UTF-8 is its own message.
pub fn message_from(envelope: Option<ApiErrorResponse>, body: &[u8]) -> (r: String)
    ensures
        r@ == match envelope {
            Some(e) => e.error.message@,
            None => utf8_lossy(body@),
        },
        envelope is None && valid_utf8(body@) ==> r@ == decode_utf8(body@),
{
    match envelope {
        Some(e) => e.error.message,
        None => lossy_text(body),
    }
}

/// The message of the error for a failed call with this body. Without an
/// envelope, a body of well-formed UTF-8 is its own message.
pub fn failure_message(body: &[u8]) -> (r: String)
    ensures
        r@ == failure_message_of(body@),
        envelope_of(body@) is None && valid_utf8(body@) ==> r@ == decode_utf8(body@),
{
    message_from(ApiErrorResponse::from_json(body), body)
}

/// A body without an envelope is reported as it stands: the message is the
/// body read permissively as text.
pub proof fn lemma_plain_body_is_the_message(body: Seq<u8>)
    requires
        envelope_of(body) is None,
    ensures
        failure_message_of(body) == utf8_lossy(body),
{
}

} // verus!
