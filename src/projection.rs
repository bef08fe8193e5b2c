//! The projection of authorization failures onto REST errors.
use crate::error_model::{
    ErrorModel, IcebergErrorResponse, BAD_REQUEST, CONFLICT, INTERNAL_SERVER_ERROR, NOT_FOUND,
    UNAUTHORIZED,
};
use crate::openfga::{OpenFGAError, StoreStatus, WriteRequest};
use crate::text::has_prefix;
use vstd::prelude::*;

verus! {

/// What the store meant by a rejected write, as far as its message tells.
#[derive(Clone, Copy, Debug, PartialEq, Eq, Structural)]
pub enum WriteFailureKind {
    /// A written tuple already exists.
    TupleAlreadyExists,
    /// A deleted tuple does not exist.
    TupleNotFound,
    Other,
}

/// The store reports no structured code for these two conflicts, only the
/// start of its message.
pub open spec fn write_failure_kind_spec(message: Seq<char>) -> WriteFailureKind {
    if "cannot write a tuple which already exists"@.is_prefix_of(message) {
        WriteFailureKind::TupleAlreadyExists
    } else if "cannot delete a tuple which does not exist"@.is_prefix_of(message) {
        WriteFailureKind::TupleNotFound
    } else {
        WriteFailureKind::Other
    }
}

/// The one place where the store's write-rejection messages are read.
pub fn write_failure_kind(message: &str) -> (r: WriteFailureKind)
    ensures
        r == write_failure_kind_spec(message@),
{
    if has_prefix(message, "cannot write a tuple which already exists") {
        WriteFailureKind::TupleAlreadyExists
    } else if has_prefix(message, "cannot delete a tuple which does not exist") {
        WriteFailureKind::TupleNotFound
    } else {
        WriteFailureKind::Other
    }
}

/// The HTTP status and type tag that a failure is reported with.
pub open spec fn rest_kind(e: OpenFGAError) -> (u16, Seq<char>) {
    match e {
        OpenFGAError::NoProjectId => (BAD_REQUEST, "NoProjectId"@),
        OpenFGAError::SelfAssignment(_) => (BAD_REQUEST, "SelfAssignment"@),
        OpenFGAError::AuthenticationRequired => (UNAUTHORIZED, "AuthenticationRequired"@),
        OpenFGAError::Unauthorized { .. } => (UNAUTHORIZED, "Unauthorized"@),
        OpenFGAError::Unauthenticated(_) => (UNAUTHORIZED, "Unauthenticated"@),
        OpenFGAError::WriteFailed { source, .. } => match write_failure_kind_spec(source.message@) {
            WriteFailureKind::TupleAlreadyExists => (CONFLICT, "TupleAlreadyExistsError"@),
            WriteFailureKind::TupleNotFound => (NOT_FOUND, "TupleNotFoundError"@),
            WriteFailureKind::Other => (INTERNAL_SERVER_ERROR, "AuthorizationError"@),
        },
        _ => (INTERNAL_SERVER_ERROR, "AuthorizationError"@),
    }
}

/// `m` reports `e`: its message, its status and tag, no diagnostics, and `e`
/// itself as the cause.
pub open spec fn projects(m: ErrorModel, e: OpenFGAError) -> bool {
    &&& m.message@ == e.message_spec()
    &&& m.code == rest_kind(e).0
    &&& m.error_type@ == rest_kind(e).1
    &&& m.stack is None
    &&& m.source is Some
    &&& *m.source->0 == e
}

impl ErrorModel {
    /// Reports an authorization failure at the REST boundary.
    pub fn from_error(err: OpenFGAError) -> (r: ErrorModel)
        ensures
            projects(r, err),
    {
        let message = err.message();
        let (code, tag): (u16, &str) = match &err {
            OpenFGAError::NoProjectId => (BAD_REQUEST, "NoProjectId"),
            OpenFGAError::SelfAssignment(_) => (BAD_REQUEST, "SelfAssignment"),
            OpenFGAError::AuthenticationRequired => (UNAUTHORIZED, "AuthenticationRequired"),
            OpenFGAError::Unauthorized { .. } => (UNAUTHORIZED, "Unauthorized"),
            OpenFGAError::Unauthenticated(_) => (UNAUTHORIZED, "Unauthenticated"),
            OpenFGAError::WriteFailed { source, .. } => match write_failure_kind(
                source.message.as_str(),
            ) {
                WriteFailureKind::TupleAlreadyExists => (CONFLICT, "TupleAlreadyExistsError"),
                WriteFailureKind::TupleNotFound => (NOT_FOUND, "TupleNotFoundError"),
                WriteFailureKind::Other => (INTERNAL_SERVER_ERROR, "AuthorizationError"),
            },
            _ => (INTERNAL_SERVER_ERROR, "AuthorizationError"),
        };
        ErrorModel {
            message,
            error_type: String::from_str(tag),
            code,
            stack: None,
            source: Some(Box::new(err)),
        }
    }
}

impl IcebergErrorResponse {
    /// Reports an authorization failure at the REST boundary, in its envelope.
    pub fn from_error(err: OpenFGAError) -> (r: IcebergErrorResponse)
        ensures
            projects(r.error, err),
    {
        IcebergErrorResponse { error: ErrorModel::from_error(err) }
    }
}

impl From<OpenFGAError> for ErrorModel {
    fn from(err: OpenFGAError) -> (r: ErrorModel) {
        ErrorModel::from_error(err)
    }
}

/// The projection builds strings, which spec code cannot name; its contract
/// stands on [`ErrorModel::from_error`].
impl vstd::std_specs::convert::FromSpecImpl<OpenFGAError> for ErrorModel {
    open spec fn obeys_from_spec() -> bool {
        false
    }

    open spec fn from_spec(err: OpenFGAError) -> ErrorModel {
        arbitrary()
    }
}

impl From<OpenFGAError> for IcebergErrorResponse {
    fn from(err: OpenFGAError) -> (r: IcebergErrorResponse) {
        IcebergErrorResponse::from_error(err)
    }
}

/// As for [`ErrorModel`], the contract stands on
/// [`IcebergErrorResponse::from_error`].
impl vstd::std_specs::convert::FromSpecImpl<OpenFGAError> for IcebergErrorResponse {
    open spec fn obeys_from_spec() -> bool {
        false
    }

    open spec fn from_spec(err: OpenFGAError) -> IcebergErrorResponse {
        arbitrary()
    }
}

/// A rejected write is reported by what the store's message starts with:
/// an existing tuple as a conflict, a missing tuple as not found, anything
/// else as an internal error.
pub proof fn lemma_write_failure_projection(write_request: WriteRequest, source: StoreStatus)
    ensures
        "cannot write a tuple which already exists"@.is_prefix_of(source.message@) ==> rest_kind(
            OpenFGAError::WriteFailed { write_request, source },
        ) == (CONFLICT, "TupleAlreadyExistsError"@),
        "cannot delete a tuple which does not exist"@.is_prefix_of(source.message@) ==> rest_kind(
            OpenFGAError::WriteFailed { write_request, source },
        ) == (NOT_FOUND, "TupleNotFoundError"@),
        !"cannot write a tuple which already exists"@.is_prefix_of(source.message@)
            && !"cannot delete a tuple which does not exist"@.is_prefix_of(source.message@)
            ==> rest_kind(OpenFGAError::WriteFailed { write_request, source }) == (
            INTERNAL_SERVER_ERROR,
            "AuthorizationError"@,
        ),
{
    reveal_strlit("cannot write a tuple which already exists");
    reveal_strlit("cannot delete a tuple which does not exist");
    if "cannot write a tuple which already exists"@.is_prefix_of(source.message@)
        && "cannot delete a tuple which does not exist"@.is_prefix_of(source.message@) {
        assert(source.message@[7] == "cannot write a tuple which already exists"@[7]);
        assert(source.message@[7] == "cannot delete a tuple which does not exist"@[7]);
    }
}

} // verus!
