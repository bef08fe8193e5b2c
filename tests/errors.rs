use iceberg_catalog::error_model::{ErrorModel, IcebergErrorResponse};
use iceberg_catalog::openfga::{
    CheckRequest, Code, FgaType, OpenFGAError, ReadRequest, StoreStatus, TupleKey, WriteRequest,
};
use iceberg_catalog::projection::{write_failure_kind, WriteFailureKind};

fn status(code: Code, message: &str) -> StoreStatus {
    StoreStatus { code, message: message.to_string() }
}

fn tuple() -> TupleKey {
    TupleKey { user: "user:alice".into(), relation: "owner".into(), object: "project:p".into() }
}

fn write_request() -> WriteRequest {
    WriteRequest {
        store_id: "s".into(),
        writes: vec![tuple()],
        deletes: vec![],
        authorization_model_id: "m".into(),
    }
}

#[test]
fn unauthenticated_status_wins_for_every_operation() {
    let s = status(Code::Unauthenticated, "bad token");
    let expected = OpenFGAError::Unauthenticated(s.clone());
    assert_eq!(OpenFGAError::store_creation(s.clone()), expected);
    assert_eq!(OpenFGAError::list_stores(s.clone()), expected);
    assert_eq!(OpenFGAError::list_authentication_models(s.clone()), expected);
    assert_eq!(OpenFGAError::write_authorization_model(s.clone()), expected);
    let check = CheckRequest { store_id: "s".into(), tuple_key: Some(tuple()), authorization_model_id: "m".into() };
    assert_eq!(OpenFGAError::check_failed(check, s.clone()), expected);
    let read = ReadRequest { store_id: "s".into(), tuple_key: None, page_size: Some(50), continuation_token: String::new() };
    assert_eq!(OpenFGAError::read_failed(read, s.clone()), expected);
    assert_eq!(OpenFGAError::write_failed(write_request(), s), expected);
}

#[test]
fn internal_status_wins_for_every_operation() {
    let s = status(Code::Internal, "boom");
    let expected = OpenFGAError::Internal(s.clone());
    assert_eq!(OpenFGAError::store_creation(s.clone()), expected);
    assert_eq!(OpenFGAError::list_stores(s.clone()), expected);
    assert_eq!(OpenFGAError::write_failed(write_request(), s), expected);
}

#[test]
fn other_statuses_keep_their_operation() {
    let s = status(Code::NotFound, "gone");
    assert_eq!(OpenFGAError::store_creation(s.clone()), OpenFGAError::StoreCreationFailed(s.clone()));
    assert_eq!(OpenFGAError::list_stores(s.clone()), OpenFGAError::ListStoresFailed(s.clone()));
    assert_eq!(
        OpenFGAError::list_authentication_models(s.clone()),
        OpenFGAError::ListAuthenticationModelsFailed(s.clone())
    );
    assert_eq!(
        OpenFGAError::write_authorization_model(s.clone()),
        OpenFGAError::WriteAuthorizationModelFailed(s.clone())
    );
    assert_eq!(
        OpenFGAError::write_failed(write_request(), s.clone()),
        OpenFGAError::WriteFailed { write_request: write_request(), source: s }
    );
}

#[test]
fn as_status_finds_the_carried_status() {
    let s = status(Code::Aborted, "m");
    assert_eq!(OpenFGAError::ListStoresFailed(s.clone()).as_status(), Some(&s));
    assert_eq!(OpenFGAError::NoProjectId.as_status(), None);
    assert_eq!(OpenFGAError::ListAuthenticationModelsFailed(s).as_status(), None);
}

#[test]
fn write_message_classification() {
    assert_eq!(
        write_failure_kind("cannot write a tuple which already exists: user:a owner project:p"),
        WriteFailureKind::TupleAlreadyExists
    );
    assert_eq!(
        write_failure_kind("cannot delete a tuple which does not exist: user:a owner project:p"),
        WriteFailureKind::TupleNotFound
    );
    assert_eq!(write_failure_kind("something else"), WriteFailureKind::Other);
    assert_eq!(write_failure_kind(""), WriteFailureKind::Other);
}

fn projected(message: &str) -> ErrorModel {
    let err = OpenFGAError::WriteFailed {
        write_request: write_request(),
        source: status(Code::InvalidArgument, message),
    };
    ErrorModel::from(err)
}

#[test]
fn write_failures_project_by_message() {
    let conflict = projected("cannot write a tuple which already exists: x");
    assert_eq!((conflict.code, conflict.error_type.as_str()), (409, "TupleAlreadyExistsError"));
    let missing = projected("cannot delete a tuple which does not exist: x");
    assert_eq!((missing.code, missing.error_type.as_str()), (404, "TupleNotFoundError"));
    let other = projected("invalid tuple");
    assert_eq!((other.code, other.error_type.as_str()), (500, "AuthorizationError"));
    assert_eq!(other.message, "Failed to write Authorization tuples");
    assert!(other.stack.is_none());
    assert!(matches!(other.source.as_deref(), Some(OpenFGAError::WriteFailed { .. })));
}

#[test]
fn policy_failures_project_to_client_errors() {
    let e = ErrorModel::from(OpenFGAError::NoProjectId);
    assert_eq!((e.code, e.error_type.as_str()), (400, "NoProjectId"));
    assert_eq!(e.message, "Project ID could not be inferred from request. Please specify it explicitly.");
    let e = ErrorModel::from(OpenFGAError::AuthenticationRequired);
    assert_eq!((e.code, e.error_type.as_str()), (401, "AuthenticationRequired"));
    let e = ErrorModel::from(OpenFGAError::SelfAssignment("user:alice".into()));
    assert_eq!((e.code, e.error_type.as_str()), (400, "SelfAssignment"));
    assert_eq!(e.message, "Cannot assign user:alice to itself");
    let e = ErrorModel::from(OpenFGAError::Unauthorized {
        user: "user:alice".into(),
        relation: "can_drop".into(),
        object: "table:t".into(),
    });
    assert_eq!((e.code, e.error_type.as_str()), (401, "Unauthorized"));
    assert_eq!(e.message, "Unauthorized for action `can_drop` on `table:t` for `user:alice`");
}

#[test]
fn store_statuses_project_by_code() {
    let e = ErrorModel::from(OpenFGAError::Unauthenticated(status(Code::Unauthenticated, "x")));
    assert_eq!((e.code, e.error_type.as_str()), (401, "Unauthenticated"));
    let e = ErrorModel::from(OpenFGAError::Internal(status(Code::Internal, "x")));
    assert_eq!((e.code, e.error_type.as_str()), (500, "AuthorizationError"));
    assert_eq!(e.message, "Internal Authorization Error");
    let r = IcebergErrorResponse::from(OpenFGAError::StoreNotFound { store: "authz".into() });
    assert_eq!(r.error.code, 500);
    assert_eq!(r.error.message, "Store authz not found. Please ensure to run migration first.");
}

#[test]
fn messages_render_numbers_and_lists() {
    assert_eq!(
        OpenFGAError::TooManyWrites { actual: 11, max: 10 }.message(),
        "Too many writes and deletes in single Authorization transaction (actual) 11 > 10 (max)"
    );
    assert_eq!(
        OpenFGAError::TooManyWrites { actual: -3, max: 0 }.message(),
        "Too many writes and deletes in single Authorization transaction (actual) -3 > 0 (max)"
    );
    assert_eq!(
        OpenFGAError::TooManyAuthorizationModels(5).message(),
        "Too many authorization models in database. Max allowed pages: 5"
    );
    assert_eq!(
        OpenFGAError::unexpected_entity(vec![FgaType::Project, FgaType::Warehouse], "x:y".into()).message(),
        "Unexpected entity for type [Project, Warehouse]: x:y"
    );
    assert_eq!(
        OpenFGAError::unexpected_entity(vec![], "v".into()).message(),
        "Unexpected entity for type []: v"
    );
    assert_eq!(
        OpenFGAError::StoreCreationFailed(status(Code::Unavailable, "down")).message(),
        "Store creation failed: status: Unavailable, message: down"
    );
    assert_eq!(OpenFGAError::InvalidEntity("q".into()).message(), "Invalid entity string: `q`");
    assert_eq!(OpenFGAError::UnknownType("q".into()).message(), "Unknown type: q");
}
