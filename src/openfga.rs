//! Failures of the authorization-store protocol, how raw store statuses are
//! classified into them, and their human-readable messages.
use crate::text::{decimal, decimal_text};
use vstd::prelude::*;

verus! {

/// Status codes of the store's transport.
#[derive(Clone, Copy, Debug, PartialEq, Eq, Structural, Hash)]
pub enum Code {
    Success,
    Cancelled,
    Unknown,
    InvalidArgument,
    DeadlineExceeded,
    NotFound,
    AlreadyExists,
    PermissionDenied,
    ResourceExhausted,
    FailedPrecondition,
    Aborted,
    OutOfRange,
    Unimplemented,
    Internal,
    Unavailable,
    DataLoss,
    Unauthenticated,
}

impl Code {
    pub open spec fn name_spec(self) -> Seq<char> {
        match self {
            Code::Success => "Ok"@,
            Code::Cancelled => "Cancelled"@,
            Code::Unknown => "Unknown"@,
            Code::InvalidArgument => "InvalidArgument"@,
            Code::DeadlineExceeded => "DeadlineExceeded"@,
            Code::NotFound => "NotFound"@,
            Code::AlreadyExists => "AlreadyExists"@,
            Code::PermissionDenied => "PermissionDenied"@,
            Code::ResourceExhausted => "ResourceExhausted"@,
            Code::FailedPrecondition => "FailedPrecondition"@,
            Code::Aborted => "Aborted"@,
            Code::OutOfRange => "OutOfRange"@,
            Code::Unimplemented => "Unimplemented"@,
            Code::Internal => "Internal"@,
            Code::Unavailable => "Unavailable"@,
            Code::DataLoss => "DataLoss"@,
            Code::Unauthenticated => "Unauthenticated"@,
        }
    }

    pub fn name(&self) -> (r: &'static str)
        ensures
            r@ == self.name_spec(),
    {
        match self {
            Code::Success => "Ok",
            Code::Cancelled => "Cancelled",
            Code::Unknown => "Unknown",
            Code::InvalidArgument => "InvalidArgument",
            Code::DeadlineExceeded => "DeadlineExceeded",
            Code::NotFound => "NotFound",
            Code::AlreadyExists => "AlreadyExists",
            Code::PermissionDenied => "PermissionDenied",
            Code::ResourceExhausted => "ResourceExhausted",
            Code::FailedPrecondition => "FailedPrecondition",
            Code::Aborted => "Aborted",
            Code::OutOfRange => "OutOfRange",
            Code::Unimplemented => "Unimplemented",
            Code::Internal => "Internal",
            Code::Unavailable => "Unavailable",
            Code::DataLoss => "DataLoss",
            Code::Unauthenticated => "Unauthenticated",
        }
    }
}

/// A status the store answered with: its code and its message.
#[derive(Debug, Clone, PartialEq, Eq)]
pub struct StoreStatus {
    pub code: Code,
    pub message: String,
}

impl StoreStatus {
    pub open spec fn text_spec(self) -> Seq<char> {
        "status: "@ + self.code.name_spec() + ", message: "@ + self.message@
    }

    /// The status as it appears inside a log message.
    pub fn text(&self) -> (r: String)
        ensures
            r@ == self.text_spec(),
    {
        let mut r = String::from_str("status: ");
        r.append(self.code.name());
        r.append(", message: ");
        r.append(self.message.as_str());
        r
    }
}

/// A relationship tuple, or the key of a tuple query.
#[derive(Debug, Clone, PartialEq, Eq)]
pub struct TupleKey {
    pub user: String,
    pub relation: String,
    pub object: String,
}

/// A paginated tuple read.
#[derive(Debug, Clone, PartialEq, Eq)]
pub struct ReadRequest {
    pub store_id: String,
    pub tuple_key: Option<TupleKey>,
    pub page_size: Option<i32>,
    pub continuation_token: String,
}

/// One authorization check.
#[derive(Debug, Clone, PartialEq, Eq)]
pub struct CheckRequest {
    pub store_id: String,
    pub tuple_key: Option<TupleKey>,
    pub authorization_model_id: String,
}

/// Tuples written and deleted in one transaction.
#[derive(Debug, Clone, PartialEq, Eq)]
pub struct WriteRequest {
    pub store_id: String,
    pub writes: Vec<TupleKey>,
    pub deletes: Vec<TupleKey>,
    pub authorization_model_id: String,
}

/// The kinds of entity the authorization model knows.
#[derive(Clone, Copy, Debug, PartialEq, Eq, Structural, Hash)]
pub enum FgaType {
    User,
    Role,
    Server,
    Project,
    Warehouse,
    Namespace,
    Table,
    View,
    ModelVersion,
    AuthModelId,
}

impl FgaType {
    pub open spec fn name_spec(self) -> Seq<char> {
        match self {
            FgaType::User => "User"@,
            FgaType::Role => "Role"@,
            FgaType::Server => "Server"@,
            FgaType::Project => "Project"@,
            FgaType::Warehouse => "Warehouse"@,
            FgaType::Namespace => "Namespace"@,
            FgaType::Table => "Table"@,
            FgaType::View => "View"@,
            FgaType::ModelVersion => "ModelVersion"@,
            FgaType::AuthModelId => "AuthModelId"@,
        }
    }

    pub fn name(&self) -> (r: &'static str)
        ensures
            r@ == self.name_spec(),
    {
        match self {
            FgaType::User => "User",
            FgaType::Role => "Role",
            FgaType::Server => "Server",
            FgaType::Project => "Project",
            FgaType::Warehouse => "Warehouse",
            FgaType::Namespace => "Namespace",
            FgaType::Table => "Table",
            FgaType::View => "View",
            FgaType::ModelVersion => "ModelVersion",
            FgaType::AuthModelId => "AuthModelId",
        }
    }
}

/// The names of `ts`, separated by `", "`.
pub open spec fn fga_type_names(ts: Seq<FgaType>) -> Seq<char>
    decreases ts.len(),
{
    if ts.len() == 0 {
        Seq::empty()
    } else if ts.len() == 1 {
        ts[0].name_spec()
    } else {
        fga_type_names(ts.drop_last()) + ", "@ + ts.last().name_spec()
    }
}

/// A list of entity kinds in brackets, as log messages show it.
pub open spec fn fga_type_list_text(ts: Seq<FgaType>) -> Seq<char> {
    "["@ + fga_type_names(ts) + "]"@
}

pub fn fga_type_list(ts: &Vec<FgaType>) -> (r: String)
    ensures
        r@ == fga_type_list_text(ts@),
{
    let mut r = String::from_str("[");
    let mut i: usize = 0;
    while i < ts.len()
        invariant
            i <= ts@.len(),
            r@ == "["@ + fga_type_names(ts@.take(i as int)),
        decreases ts@.len() - i,
    {
        if i > 0 {
            r.append(", ");
        }
        r.append(ts[i].name());
        proof {
            assert(ts@.take(i + 1).drop_last() =~= ts@.take(i as int));
        }
        i = i + 1;
    }
    assert(ts@.take(i as int) =~= ts@);
    r.append("]");
    r
}

/// Every way in which talking to the authorization store can fail.
#[derive(Debug, Clone, PartialEq, Eq)]
pub enum OpenFGAError {
    AuthorizationModelIdFailed { reason: String },
    /// Refreshing the client credentials failed; holds the refresher's message.
    ClientCredentialFailed(String),
    /// The transport could not connect; holds the transport's message.
    ConnectionFailed(String),
    Internal(StoreStatus),
    InvalidBearerToken(String),
    ListAuthenticationModelsFailed(StoreStatus),
    ListStoresFailed(StoreStatus),
    ReadFailed { read_request: Box<ReadRequest>, source: StoreStatus },
    CheckFailed { check_request: Box<CheckRequest>, source: StoreStatus },
    StoreCreationFailed(StoreStatus),
    StoreNotFound { store: String },
    TooManyAuthorizationModels(u32),
    TooManyPages { max_pages: u32, tuple: TupleKey },
    Unauthenticated(StoreStatus),
    UnexpectedEntity { types: Vec<FgaType>, value: String },
    UnknownType(String),
    InvalidEntity(String),
    UnknownModelVersionApplied(u64),
    WriteAuthorizationModelFailed(StoreStatus),
    WriteFailed { write_request: WriteRequest, source: StoreStatus },
    TooManyWrites { actual: i32, max: i32 },
    NoProjectId,
    AuthenticationRequired,
    Unauthorized { user: String, relation: String, object: String },
    SelfAssignment(String),
}

/// What a store status means whatever call produced it, if anything.
pub open spec fn known_status_spec(status: StoreStatus) -> Option<OpenFGAError> {
    match status.code {
        Code::Unauthenticated => Some(OpenFGAError::Unauthenticated(status)),
        Code::Internal => Some(OpenFGAError::Internal(status)),
        _ => None,
    }
}

/// The failure for `status`: its generic meaning where it has one, else
/// `fallback`.
pub open spec fn classified(status: StoreStatus, fallback: OpenFGAError) -> OpenFGAError {
    match known_status_spec(status) {
        Some(e) => e,
        None => fallback,
    }
}

impl OpenFGAError {
    /// Gives `status` back when it has no generic meaning.
    fn known_status(status: StoreStatus) -> (r: Result<OpenFGAError, StoreStatus>)
        ensures
            match known_status_spec(status) {
                Some(e) => r == Ok::<OpenFGAError, StoreStatus>(e),
                None => r == Err::<OpenFGAError, StoreStatus>(status),
            },
    {
        match status.code {
            Code::Unauthenticated => Ok(OpenFGAError::Unauthenticated(status)),
            Code::Internal => Ok(OpenFGAError::Internal(status)),
            _ => Err(status),
        }
    }

    pub fn store_creation(status: StoreStatus) -> (r: OpenFGAError)
        ensures
            r == classified(status, OpenFGAError::StoreCreationFailed(status)),
    {
        match OpenFGAError::known_status(status) {
            Ok(e) => e,
            Err(status) => OpenFGAError::StoreCreationFailed(status),
        }
    }

    pub fn list_stores(status: StoreStatus) -> (r: OpenFGAError)
        ensures
            r == classified(status, OpenFGAError::ListStoresFailed(status)),
    {
        match OpenFGAError::known_status(status) {
            Ok(e) => e,
            Err(status) => OpenFGAError::ListStoresFailed(status),
        }
    }

    pub fn list_authentication_models(status: StoreStatus) -> (r: OpenFGAError)
        ensures
            r == classified(status, OpenFGAError::ListAuthenticationModelsFailed(status)),
    {
        match OpenFGAError::known_status(status) {
            Ok(e) => e,
            Err(status) => OpenFGAError::ListAuthenticationModelsFailed(status),
        }
    }

    pub fn write_authorization_model(status: StoreStatus) -> (r: OpenFGAError)
        ensures
            r == classified(status, OpenFGAError::WriteAuthorizationModelFailed(status)),
    {
        match OpenFGAError::known_status(status) {
            Ok(e) => e,
            Err(status) => OpenFGAError::WriteAuthorizationModelFailed(status),
        }
    }

    /// A failed check keeps the request it was made for.
    pub fn check_failed(check_request: CheckRequest, status: StoreStatus) -> (r: OpenFGAError)
        ensures
            r == classified(
                status,
                OpenFGAError::CheckFailed { check_request: Box::new(check_request), source: status },
            ),
    {
        match OpenFGAError::known_status(status) {
            Ok(e) => e,
            Err(source) => OpenFGAError::CheckFailed { check_request: Box::new(check_request), source },
        }
    }

    /// A failed read keeps the request it was made for.
    pub fn read_failed(read_request: ReadRequest, status: StoreStatus) -> (r: OpenFGAError)
        ensures
            r == classified(
                status,
                OpenFGAError::ReadFailed { read_request: Box::new(read_request), source: status },
            ),
    {
        match OpenFGAError::known_status(status) {
            Ok(e) => e,
            Err(source) => OpenFGAError::ReadFailed { read_request: Box::new(read_request), source },
        }
    }

    /// A rejected write keeps the whole batch it was made for.
    pub fn write_failed(write_request: WriteRequest, status: StoreStatus) -> (r: OpenFGAError)
        ensures
            r == classified(status, OpenFGAError::WriteFailed { write_request, source: status }),
    {
        match OpenFGAError::known_status(status) {
            Ok(e) => e,
            Err(source) => OpenFGAError::WriteFailed { write_request, source },
        }
    }

    pub fn unexpected_entity(types: Vec<FgaType>, value: String) -> (r: OpenFGAError)
        ensures
            r == (OpenFGAError::UnexpectedEntity { types, value }),
    {
        OpenFGAError::UnexpectedEntity { types, value }
    }

    /// The store status that the failure carries, if any.
    pub open spec fn status_spec(self) -> Option<StoreStatus> {
        match self {
            OpenFGAError::CheckFailed { source, .. } => Some(source),
            OpenFGAError::ReadFailed { source, .. } => Some(source),
            OpenFGAError::WriteFailed { source, .. } => Some(source),
            OpenFGAError::Unauthenticated(status) => Some(status),
            OpenFGAError::Internal(status) => Some(status),
            OpenFGAError::WriteAuthorizationModelFailed(status) => Some(status),
            OpenFGAError::ListStoresFailed(status) => Some(status),
            OpenFGAError::StoreCreationFailed(status) => Some(status),
            _ => None,
        }
    }

    pub fn as_status(&self) -> (r: Option<&StoreStatus>)
        ensures
            match r {
                Some(s) => self.status_spec() == Some(*s),
                None => self.status_spec() is None,
            },
    {
        match self {
            OpenFGAError::CheckFailed { source, .. } => Some(source),
            OpenFGAError::ReadFailed { source, .. } => Some(source),
            OpenFGAError::WriteFailed { source, .. } => Some(source),
            OpenFGAError::Unauthenticated(status) => Some(status),
            OpenFGAError::Internal(status) => Some(status),
            OpenFGAError::WriteAuthorizationModelFailed(status) => Some(status),
            OpenFGAError::ListStoresFailed(status) => Some(status),
            OpenFGAError::StoreCreationFailed(status) => Some(status),
            _ => None,
        }
    }

    /// The human-readable message of the failure, for logs.
    pub open spec fn message_spec(self) -> Seq<char> {
        match self {
            OpenFGAError::AuthorizationModelIdFailed { reason } => "Authorization Model ID failed: "@
                + reason@,
            OpenFGAError::ClientCredentialFailed(_) => "Client Credential refresh failed"@,
            OpenFGAError::ConnectionFailed(_) => "Connection to OpenFGA failed"@,
            OpenFGAError::Internal(_) => "Internal Authorization Error"@,
            OpenFGAError::InvalidBearerToken(v) => "Invalid Bearer Token for OpenFGA: "@ + v@,
            OpenFGAError::ListAuthenticationModelsFailed(_) => "Listing authentication models failed"@,
            OpenFGAError::ListStoresFailed(_) => "OpenFGA Error: Listing stores failed"@,
            OpenFGAError::ReadFailed { .. } => "Reading tuples failed"@,
            OpenFGAError::CheckFailed { .. } => "Authorization check failed"@,
            OpenFGAError::StoreCreationFailed(s) => "Store creation failed: "@ + s.text_spec(),
            OpenFGAError::StoreNotFound { store } => "Store "@ + store@
                + " not found. Please ensure to run migration first."@,
            OpenFGAError::TooManyAuthorizationModels(n) =>
                "Too many authorization models in database. Max allowed pages: "@ + decimal_text(
                n as int,
            ),
            OpenFGAError::TooManyPages { .. } => "Too many pages"@,
            OpenFGAError::Unauthenticated(_) => "Authentication to Authorization system failed"@,
            OpenFGAError::UnexpectedEntity { types, value } => "Unexpected entity for type "@
                + fga_type_list_text(types@) + ": "@ + value@,
            OpenFGAError::UnknownType(t) => "Unknown type: "@ + t@,
            OpenFGAError::InvalidEntity(t) => "Invalid entity string: `"@ + t@ + "`"@,
            OpenFGAError::UnknownModelVersionApplied(_) => "Unknown model version currently applied"@,
            OpenFGAError::WriteAuthorizationModelFailed(s) => "Failed to write Authorization model: "@
                + s.text_spec(),
            OpenFGAError::WriteFailed { .. } => "Failed to write Authorization tuples"@,
            OpenFGAError::TooManyWrites { actual, max } =>
                "Too many writes and deletes in single Authorization transaction (actual) "@
                + decimal_text(actual as int) + " > "@ + decimal_text(max as int) + " (max)"@,
            OpenFGAError::NoProjectId =>
                "Project ID could not be inferred from request. Please specify it explicitly."@,
            OpenFGAError::AuthenticationRequired => "Authentication required"@,
            OpenFGAError::Unauthorized { user, relation, object } => "Unauthorized for action `"@
                + relation@ + "` on `"@ + object@ + "` for `"@ + user@ + "`"@,
            OpenFGAError::SelfAssignment(x) => "Cannot assign "@ + x@ + " to itself"@,
        }
    }

    pub fn message(&self) -> (r: String)
        ensures
            r@ == self.message_spec(),
    {
        match self {
            OpenFGAError::AuthorizationModelIdFailed { reason } => {
                let mut r = String::from_str("Authorization Model ID failed: ");
                r.append(reason.as_str());
                r
            },
            OpenFGAError::ClientCredentialFailed(_) => String::from_str("Client Credential refresh failed"),
            OpenFGAError::ConnectionFailed(_) => String::from_str("Connection to OpenFGA failed"),
            OpenFGAError::Internal(_) => String::from_str("Internal Authorization Error"),
            OpenFGAError::InvalidBearerToken(v) => {
                let mut r = String::from_str("Invalid Bearer Token for OpenFGA: ");
                r.append(v.as_str());
                r
            },
            OpenFGAError::ListAuthenticationModelsFailed(_) => String::from_str(
                "Listing authentication models failed",
            ),
            OpenFGAError::ListStoresFailed(_) => String::from_str("OpenFGA Error: Listing stores failed"),
            OpenFGAError::ReadFailed { .. } => String::from_str("Reading tuples failed"),
            OpenFGAError::CheckFailed { .. } => String::from_str("Authorization check failed"),
            OpenFGAError::StoreCreationFailed(s) => {
                let mut r = String::from_str("Store creation failed: ");
                r.append(s.text().as_str());
                r
            },
            OpenFGAError::StoreNotFound { store } => {
                let mut r = String::from_str("Store ");
                r.append(store.as_str());
                r.append(" not found. Please ensure to run migration first.");
                r
            },
            OpenFGAError::TooManyAuthorizationModels(n) => {
                let mut r = String::from_str(
                    "Too many authorization models in database. Max allowed pages: ",
                );
                r.append(decimal(*n as i128).as_str());
                r
            },
            OpenFGAError::TooManyPages { .. } => String::from_str("Too many pages"),
            OpenFGAError::Unauthenticated(_) => String::from_str(
                "Authentication to Authorization system failed",
            ),
            OpenFGAError::UnexpectedEntity { types, value } => {
                let mut r = String::from_str("Unexpected entity for type ");
                r.append(fga_type_list(types).as_str());
                r.append(": ");
                r.append(value.as_str());
                r
            },
            OpenFGAError::UnknownType(t) => {
                let mut r = String::from_str("Unknown type: ");
                r.append(t.as_str());
                r
            },
            OpenFGAError::InvalidEntity(t) => {
                let mut r = String::from_str("Invalid entity string: `");
                r.append(t.as_str());
                r.append("`");
                r
            },
            OpenFGAError::UnknownModelVersionApplied(_) => String::from_str(
                "Unknown model version currently applied",
            ),
            OpenFGAError::WriteAuthorizationModelFailed(s) => {
                let mut r = String::from_str("Failed to write Authorization model: ");
                r.append(s.text().as_str());
                r
            },
            OpenFGAError::WriteFailed { .. } => String::from_str("Failed to write Authorization tuples"),
            OpenFGAError::TooManyWrites { actual, max } => {
                let mut r = String::from_str(
                    "Too many writes and deletes in single Authorization transaction (actual) ",
                );
                r.append(decimal(*actual as i128).as_str());
                r.append(" > ");
                r.append(decimal(*max as i128).as_str());
                r.append(" (max)");
                r
            },
            OpenFGAError::NoProjectId => String::from_str(
                "Project ID could not be inferred from request. Please specify it explicitly.",
            ),
            OpenFGAError::AuthenticationRequired => String::from_str("Authentication required"),
            OpenFGAError::Unauthorized { user, relation, object } => {
                let mut r = String::from_str("Unauthorized for action `");
                r.append(relation.as_str());
                r.append("` on `");
                r.append(object.as_str());
                r.append("` for `");
                r.append(user.as_str());
                r.append("`");
                r
            },
            OpenFGAError::SelfAssignment(x) => {
                let mut r = String::from_str("Cannot assign ");
                r.append(x.as_str());
                r.append(" to itself");
                r
            },
        }
    }
}

/// An unauthenticated or internal status means the same whichever operation
/// received it.
pub proof fn lemma_known_status_wins(status: StoreStatus, fallback: OpenFGAError)
    ensures
        status.code == Code::Unauthenticated ==> classified(status, fallback)
            == OpenFGAError::Unauthenticated(status),
        status.code == Code::Internal ==> classified(status, fallback) == OpenFGAError::Internal(
            status,
        ),
        status.code != Code::Unauthenticated && status.code != Code::Internal ==> classified(
            status,
            fallback,
        ) == fallback,
{
}

} // verus!
