//! Problem details for HTTP APIs (RFC 9457): the data model of a problem
//! document, its JSON text, and an encoder that always yields a response.
//!
//! Every function here is verified. The contracts speak of JSON text as
//! sequences of bytes; see [`text`] for the vocabulary they use.

pub mod laws;
pub mod problem;
pub mod response;
pub mod text;

pub use problem::{
    EncodeError, JsonObject, ProblemDetails, Serialized, Source, ValidationError, ValidationErrors,
};
pub use response::{
    internal_server_error, respond, Response, APPLICATION_PROBLEM_JSON,
    INTERNAL_SERVER_ERROR_PROBLEM,
};
