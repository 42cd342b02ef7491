//! The response an encoded problem travels in, and the encoder that always
//! produces one.

use crate::problem::{EncodeError, JsonObject, ProblemDetails};
use crate::text::object_text;
use vstd::prelude::*;

verus! {

/// The media type of every response built here.
pub const APPLICATION_PROBLEM_JSON: &'static str = "application/problem+json";

/// The status of a response whose body is the encoded problem. The encoder
/// does not copy the problem's own status into the response.
pub const STATUS_OK: u16 = 200;

/// The status of the fallback response.
pub const STATUS_INTERNAL_SERVER_ERROR: u16 = 500;

/// The body of the fallback response, fixed once and never serialized at
/// request time. Clients match on these very bytes, so the text is fixed
/// exactly as it stands, with no comma between the `detail` member and the
/// `status` member.
pub const INTERNAL_SERVER_ERROR_PROBLEM: &'static str =
    "{\n    \"type\": \"internal_server_error\",\n    \"title\": \"Internal Server Error\",\n    \"detail\": \"Something went wrong when processing your request. Please try again later.\"\n    \"status\": 500\n}";

/// The bytes of the fallback body.
pub open spec fn fallback_text() -> Seq<u8> {
    vstd::utf8::encode_utf8(INTERNAL_SERVER_ERROR_PROBLEM@)
}

/// An immutable byte buffer of the `bytes` crate.
#[verifier::external_type_specification]
#[verifier::external_body]
pub struct ExBytes(bytes::Bytes);

/// The bytes a buffer holds, first to last.
pub uninterp spec fn bytes_contents(bytes: bytes::Bytes) -> Seq<u8>;

/// Calls `Bytes::from` on a vector: a buffer that takes over the vector's
/// bytes as they are.
#[verifier::external_body]
fn bytes_from_vec(text: Vec<u8>) -> (bytes: bytes::Bytes)
    ensures
        bytes_contents(bytes) == text@,
{
    bytes::Bytes::from(text)
}

/// Calls `Bytes::from_static`: a buffer over the given bytes.
#[verifier::external_body]
fn bytes_from_static(text: &'static [u8]) -> (bytes: bytes::Bytes)
    ensures
        bytes_contents(bytes) == text@,
{
    bytes::Bytes::from_static(text)
}

/// What the transport is handed: a status, the value of the `Content-Type`
/// header, and the body.
pub struct Response {
    pub status: u16,
    pub content_type: &'static str,
    pub body: bytes::Bytes,
}

impl Response {
    /// Whether this is the fallback response.
    pub open spec fn is_fallback(&self) -> bool {
        &&& self.status == STATUS_INTERNAL_SERVER_ERROR
        &&& self.content_type@ == APPLICATION_PROBLEM_JSON@
        &&& bytes_contents(self.body) == fallback_text()
    }

    /// Whether this is the response that carries `text` as an encoded
    /// problem.
    pub open spec fn carries(&self, text: Seq<u8>) -> bool {
        &&& self.status == STATUS_OK
        &&& self.content_type@ == APPLICATION_PROBLEM_JSON@
        &&& bytes_contents(self.body) == text
    }
}

/// The fallback response: status 500, the problem media type and the fixed
/// body. Nothing is serialized to build it.
pub fn internal_server_error() -> (response: Response)
    ensures
        response.is_fallback(),
{
    Response {
        status: STATUS_INTERNAL_SERVER_ERROR,
        content_type: APPLICATION_PROBLEM_JSON,
        body: bytes_from_static(INTERNAL_SERVER_ERROR_PROBLEM.as_bytes()),
    }
}

/// Builds the response for the outcome of serializing a problem: the text
/// as the body where there is one, the fallback where there is none.
pub fn respond(outcome: Result<Vec<u8>, EncodeError>) -> (response: Response)
    ensures
        match outcome {
            Ok(text) => response.carries(text@),
            Err(_) => response.is_fallback(),
        },
{
    match outcome {
        Ok(text) => Response {
            status: STATUS_OK,
            content_type: APPLICATION_PROBLEM_JSON,
            body: bytes_from_vec(text),
        },
        Err(_) => internal_server_error(),
    }
}

impl<Extension: JsonObject> ProblemDetails<Extension> {
    /// Encodes the problem as a response. Where the problem serializes, the
    /// body is its flat JSON object; where its extension cannot be
    /// serialized, the response is the fallback. Either way the content
    /// type is the problem media type, and there is always a response.
    pub fn into_response(self) -> (response: Response)
        ensures
            response.content_type@ == APPLICATION_PROBLEM_JSON@,
            match self.members() {
                Some(members) => response.carries(object_text(members)),
                None => response.is_fallback(),
            },
    {
        respond(self.to_json())
    }
}

} // verus!
