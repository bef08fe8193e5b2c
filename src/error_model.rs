//! The generic error-response shape of the REST boundary.
use crate::openfga::OpenFGAError;
use vstd::prelude::*;

verus! {

/// An error as the REST boundary reports it: a human message, a stable
/// machine-readable type tag, the HTTP status, and optional diagnostics.
#[derive(Debug, Clone, PartialEq, Eq)]
pub struct ErrorModel {
    pub message: String,
    pub error_type: String,
    pub code: u16,
    pub stack: Option<Vec<String>>,
    pub source: Option<Box<OpenFGAError>>,
}

/// The envelope in which an [`ErrorModel`] leaves the service.
#[derive(Debug, Clone, PartialEq, Eq)]
pub struct IcebergErrorResponse {
    pub error: ErrorModel,
}

pub const BAD_REQUEST: u16 = 400;

pub const UNAUTHORIZED: u16 = 401;

pub const NOT_FOUND: u16 = 404;

pub const CONFLICT: u16 = 409;

pub const INTERNAL_SERVER_ERROR: u16 = 500;

/// `e` is a 400 answer with the given message and tag, whose only diagnostic
/// is `diagnostic`, and with no source.
pub open spec fn is_bad_request_with(
    e: ErrorModel,
    message: Seq<char>,
    tag: Seq<char>,
    diagnostic: Seq<char>,
) -> bool {
    &&& e.code == BAD_REQUEST
    &&& e.message@ == message
    &&& e.error_type@ == tag
    &&& e.stack is Some
    &&& e.stack->0@.len() == 1
    &&& e.stack->0@[0]@ == diagnostic
    &&& e.source is None
}

impl ErrorModel {
    /// A 400 answer that carries one diagnostic line.
    pub fn bad_request_with(message: String, tag: String, diagnostic: String) -> (r: ErrorModel)
        ensures
            is_bad_request_with(r, message@, tag@, diagnostic@),
    {
        let mut stack: Vec<String> = Vec::new();
        stack.push(diagnostic);
        ErrorModel { message, error_type: tag, code: BAD_REQUEST, stack: Some(stack), source: None }
    }
}

impl From<ErrorModel> for IcebergErrorResponse {
    fn from(error: ErrorModel) -> (r: IcebergErrorResponse) {
        IcebergErrorResponse { error }
    }
}

impl vstd::std_specs::convert::FromSpecImpl<ErrorModel> for IcebergErrorResponse {
    open spec fn obeys_from_spec() -> bool {
        true
    }

    open spec fn from_spec(error: ErrorModel) -> IcebergErrorResponse {
        IcebergErrorResponse { error }
    }
}

} // verus!
