//! The failures this library reports.
//!
//! The transport, the JSON decoder and the filesystem have error types of their
//! own. The library never looks inside one: it carries each to the caller under
//! the variant that says where it arose.

use reqwest::Error as TransportError;
use serde_json::Error as JsonError;
use std::io::Error as IoError;
use vstd::prelude::*;
use vstd::std_specs::convert::FromSpecImpl;

verus! {

/// `reqwest::Error`, the transport's error type, carried through unopened.
#[verifier::external_type_specification]
#[verifier::external_body]
pub struct ExTransportError(TransportError);

/// `serde_json::Error`, the JSON decoder's error type, carried through unopened.
#[verifier::external_type_specification]
#[verifier::external_body]
pub struct ExJsonError(JsonError);

/// `std::io::Error`, the filesystem's error type, carried through unopened.
#[verifier::external_type_specification]
#[verifier::external_body]
pub struct ExIoError(IoError);

/// Why an operation of this library failed.
#[derive(Debug)]
pub enum Error {
    /// The transport could not build, send or read an exchange.
    Network(TransportError),
    /// The response body was not JSON of the expected shape.
    Json(JsonError),
    /// The service answered with a return code other than success; the text is
    /// the message it sent.
    Api(String),
    /// An image came with a content type that names no known file extension; the
    /// text is the content type as it was received.
    UnrecognizedFormat(String),
    /// A file could not be created or written.
    Io(IoError),
}

impl From<TransportError> for Error {
    fn from(e: TransportError) -> (err: Self) {
        Error::Network(e)
    }
}

impl FromSpecImpl<TransportError> for Error {
    open spec fn obeys_from_spec() -> bool {
        true
    }

    open spec fn from_spec(e: TransportError) -> Self {
        Error::Network(e)
    }
}

impl From<JsonError> for Error {
    fn from(e: JsonError) -> (err: Self) {
        Error::Json(e)
    }
}

impl FromSpecImpl<JsonError> for Error {
    open spec fn obeys_from_spec() -> bool {
        true
    }

    open spec fn from_spec(e: JsonError) -> Self {
        Error::Json(e)
    }
}

impl From<IoError> for Error {
    fn from(e: IoError) -> (err: Self) {
        Error::Io(e)
    }
}

impl FromSpecImpl<IoError> for Error {
    open spec fn obeys_from_spec() -> bool {
        true
    }

    open spec fn from_spec(e: IoError) -> Self {
        Error::Io(e)
    }
}

} // verus!
