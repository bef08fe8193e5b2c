//! Identifiers of the catalog's entities. Each wraps the 128 bits of a UUID
//! (as `uuid::Uuid::as_u128` gives them) and never changes after
//! construction; identifiers of different kinds do not convert into each other.
use crate::error_model::{ErrorModel, IcebergErrorResponse};
use crate::text::{
    format_uuid, is_uuid_text, parse_uuid, uuid_length, uuid_parse_outcome, uuid_text,
};
use vstd::prelude::*;

verus! {

/// A namespace, by its UUID.
#[derive(Clone, Copy, Debug, PartialEq, Eq, Structural, Hash, PartialOrd, Ord)]
pub struct NamespaceIdentUuid(u128);

impl View for NamespaceIdentUuid {
    type V = u128;

    closed spec fn view(&self) -> u128 {
        self.0
    }
}

impl NamespaceIdentUuid {
    pub fn from_uuid(uuid: u128) -> (r: NamespaceIdentUuid)
        ensures
            r@ == uuid,
    {
        NamespaceIdentUuid(uuid)
    }

    pub fn to_uuid(&self) -> (r: u128)
        ensures
            r == self@,
    {
        self.0
    }

    pub fn as_uuid(&self) -> (r: &u128)
        ensures
            *r == self@,
    {
        &self.0
    }

    /// The canonical UUID text of the identifier.
    pub fn to_string(&self) -> (r: String)
        ensures
            r@ == uuid_text(self@),
    {
        format_uuid(self.0)
    }

    /// Reads an identifier from any text that `uuid` accepts; the canonical
    /// text of a UUID always reads back as that UUID.
    pub fn parse(s: &str) -> (r: Result<NamespaceIdentUuid, IcebergErrorResponse>)
        ensures
            r is Ok <==> uuid_parse_outcome(s@) is Ok,
            !uuid_length(s@.len()) ==> r is Err,
            r is Ok ==> r->Ok_0@ == uuid_parse_outcome(s@)->Ok_0,
            r is Err ==> crate::error_model::is_bad_request_with(
                r->Err_0.error,
                "Provided namespace id is not a valid UUID"@,
                "NamespaceIDIsNotUUID"@,
                uuid_parse_outcome(s@)->Err_0,
            ),
            forall|id: NamespaceIdentUuid| #[trigger] uuid_text(id@) == s@ ==> r == Ok::<
                NamespaceIdentUuid,
                IcebergErrorResponse,
            >(id),
    {
        match parse_uuid(s) {
            Ok(v) => {
                proof {
                    assert forall|id: NamespaceIdentUuid|
                        #[trigger] uuid_text(id@) == s@ implies v == id@ by {
                        assert(is_uuid_text(s@));
                        crate::text::lemma_uuid_text_injective(v, id@);
                    }
                }
                Ok(NamespaceIdentUuid(v))
            },
            Err(diagnostic) => {
                proof {
                    assert forall|id: NamespaceIdentUuid|
                        #[trigger] uuid_text(id@) == s@ implies false by {
                        assert(is_uuid_text(s@));
                    }
                }
                let message = String::from_str("Provided namespace id is not a valid UUID");
                let tag = String::from_str("NamespaceIDIsNotUUID");
                let error = ErrorModel::bad_request_with(message, tag, diagnostic);
                Err(IcebergErrorResponse { error })
            },
        }
    }
}

impl std::str::FromStr for NamespaceIdentUuid {
    type Err = IcebergErrorResponse;

    fn from_str(s: &str) -> Result<NamespaceIdentUuid, IcebergErrorResponse> {
        NamespaceIdentUuid::parse(s)
    }
}

impl std::ops::Deref for NamespaceIdentUuid {
    type Target = u128;

    fn deref(&self) -> &u128 {
        &self.0
    }
}

impl From<u128> for NamespaceIdentUuid {
    fn from(uuid: u128) -> (r: NamespaceIdentUuid) {
        NamespaceIdentUuid(uuid)
    }
}

impl vstd::std_specs::convert::FromSpecImpl<u128> for NamespaceIdentUuid {
    open spec fn obeys_from_spec() -> bool {
        true
    }

    closed spec fn from_spec(uuid: u128) -> NamespaceIdentUuid {
        NamespaceIdentUuid(uuid)
    }
}

/// A table, by its UUID.
#[derive(Clone, Copy, Debug, PartialEq, Eq, Structural, Hash, PartialOrd, Ord)]
pub struct TableIdentUuid(u128);

impl View for TableIdentUuid {
    type V = u128;

    closed spec fn view(&self) -> u128 {
        self.0
    }
}

impl TableIdentUuid {
    pub fn from_uuid(uuid: u128) -> (r: TableIdentUuid)
        ensures
            r@ == uuid,
    {
        TableIdentUuid(uuid)
    }

    pub fn to_uuid(&self) -> (r: u128)
        ensures
            r == self@,
    {
        self.0
    }

    pub fn as_uuid(&self) -> (r: &u128)
        ensures
            *r == self@,
    {
        &self.0
    }

    /// The canonical UUID text of the identifier.
    pub fn to_string(&self) -> (r: String)
        ensures
            r@ == uuid_text(self@),
    {
        format_uuid(self.0)
    }

    /// Reads an identifier from any text that `uuid` accepts; the canonical
    /// text of a UUID always reads back as that UUID.
    pub fn parse(s: &str) -> (r: Result<TableIdentUuid, IcebergErrorResponse>)
        ensures
            r is Ok <==> uuid_parse_outcome(s@) is Ok,
            !uuid_length(s@.len()) ==> r is Err,
            r is Ok ==> r->Ok_0@ == uuid_parse_outcome(s@)->Ok_0,
            r is Err ==> crate::error_model::is_bad_request_with(
                r->Err_0.error,
                "Provided table id is not a valid UUID"@,
                "TableIDIsNotUUID"@,
                uuid_parse_outcome(s@)->Err_0,
            ),
            forall|id: TableIdentUuid| #[trigger] uuid_text(id@) == s@ ==> r == Ok::<
                TableIdentUuid,
                IcebergErrorResponse,
            >(id),
    {
        match parse_uuid(s) {
            Ok(v) => {
                proof {
                    assert forall|id: TableIdentUuid|
                        #[trigger] uuid_text(id@) == s@ implies v == id@ by {
                        assert(is_uuid_text(s@));
                        crate::text::lemma_uuid_text_injective(v, id@);
                    }
                }
                Ok(TableIdentUuid(v))
            },
            Err(diagnostic) => {
                proof {
                    assert forall|id: TableIdentUuid|
                        #[trigger] uuid_text(id@) == s@ implies false by {
                        assert(is_uuid_text(s@));
                    }
                }
                let message = String::from_str("Provided table id is not a valid UUID");
                let tag = String::from_str("TableIDIsNotUUID");
                let error = ErrorModel::bad_request_with(message, tag, diagnostic);
                Err(IcebergErrorResponse { error })
            },
        }
    }
}

impl std::str::FromStr for TableIdentUuid {
    type Err = IcebergErrorResponse;

    fn from_str(s: &str) -> Result<TableIdentUuid, IcebergErrorResponse> {
        TableIdentUuid::parse(s)
    }
}

impl std::ops::Deref for TableIdentUuid {
    type Target = u128;

    fn deref(&self) -> &u128 {
        &self.0
    }
}

impl From<u128> for TableIdentUuid {
    fn from(uuid: u128) -> (r: TableIdentUuid) {
        TableIdentUuid(uuid)
    }
}

impl vstd::std_specs::convert::FromSpecImpl<u128> for TableIdentUuid {
    open spec fn obeys_from_spec() -> bool {
        true
    }

    closed spec fn from_spec(uuid: u128) -> TableIdentUuid {
        TableIdentUuid(uuid)
    }
}

/// A project, by its UUID.
#[derive(Clone, Copy, Debug, PartialEq, Eq, Structural, Hash, PartialOrd, Ord)]
pub struct ProjectIdent(u128);

impl View for ProjectIdent {
    type V = u128;

    closed spec fn view(&self) -> u128 {
        self.0
    }
}

impl ProjectIdent {
    pub fn from_uuid(uuid: u128) -> (r: ProjectIdent)
        ensures
            r@ == uuid,
    {
        ProjectIdent(uuid)
    }

    pub fn to_uuid(&self) -> (r: u128)
        ensures
            r == self@,
    {
        self.0
    }

    pub fn as_uuid(&self) -> (r: &u128)
        ensures
            *r == self@,
    {
        &self.0
    }

    /// The canonical UUID text of the identifier.
    pub fn to_string(&self) -> (r: String)
        ensures
            r@ == uuid_text(self@),
    {
        format_uuid(self.0)
    }

    /// Reads an identifier from any text that `uuid` accepts; the canonical
    /// text of a UUID always reads back as that UUID.
    pub fn parse(s: &str) -> (r: Result<ProjectIdent, IcebergErrorResponse>)
        ensures
            r is Ok <==> uuid_parse_outcome(s@) is Ok,
            !uuid_length(s@.len()) ==> r is Err,
            r is Ok ==> r->Ok_0@ == uuid_parse_outcome(s@)->Ok_0,
            r is Err ==> crate::error_model::is_bad_request_with(
                r->Err_0.error,
                "Provided project id is not a valid UUID"@,
                "ProjectIDIsNotUUID"@,
                uuid_parse_outcome(s@)->Err_0,
            ),
            forall|id: ProjectIdent| #[trigger] uuid_text(id@) == s@ ==> r == Ok::<
                ProjectIdent,
                IcebergErrorResponse,
            >(id),
    {
        match parse_uuid(s) {
            Ok(v) => {
                proof {
                    assert forall|id: ProjectIdent|
                        #[trigger] uuid_text(id@) == s@ implies v == id@ by {
                        assert(is_uuid_text(s@));
                        crate::text::lemma_uuid_text_injective(v, id@);
                    }
                }
                Ok(ProjectIdent(v))
            },
            Err(diagnostic) => {
                proof {
                    assert forall|id: ProjectIdent|
                        #[trigger] uuid_text(id@) == s@ implies false by {
                        assert(is_uuid_text(s@));
                    }
                }
                let message = String::from_str("Provided project id is not a valid UUID");
                let tag = String::from_str("ProjectIDIsNotUUID");
                let error = ErrorModel::bad_request_with(message, tag, diagnostic);
                Err(IcebergErrorResponse { error })
            },
        }
    }
}

impl std::str::FromStr for ProjectIdent {
    type Err = IcebergErrorResponse;

    fn from_str(s: &str) -> Result<ProjectIdent, IcebergErrorResponse> {
        ProjectIdent::parse(s)
    }
}

impl std::ops::Deref for ProjectIdent {
    type Target = u128;

    fn deref(&self) -> &u128 {
        &self.0
    }
}

impl From<u128> for ProjectIdent {
    fn from(uuid: u128) -> (r: ProjectIdent) {
        ProjectIdent(uuid)
    }
}

impl vstd::std_specs::convert::FromSpecImpl<u128> for ProjectIdent {
    open spec fn obeys_from_spec() -> bool {
        true
    }

    closed spec fn from_spec(uuid: u128) -> ProjectIdent {
        ProjectIdent(uuid)
    }
}

/// A warehouse, by its UUID.
#[derive(Clone, Copy, Debug, PartialEq, Eq, Structural, Hash, PartialOrd, Ord)]
pub struct WarehouseIdent(u128);

impl View for WarehouseIdent {
    type V = u128;

    closed spec fn view(&self) -> u128 {
        self.0
    }
}

impl WarehouseIdent {
    pub fn from_uuid(uuid: u128) -> (r: WarehouseIdent)
        ensures
            r@ == uuid,
    {
        WarehouseIdent(uuid)
    }

    pub fn to_uuid(&self) -> (r: u128)
        ensures
            r == self@,
    {
        self.0
    }

    pub fn as_uuid(&self) -> (r: &u128)
        ensures
            *r == self@,
    {
        &self.0
    }

    /// The canonical UUID text of the identifier.
    pub fn to_string(&self) -> (r: String)
        ensures
            r@ == uuid_text(self@),
    {
        format_uuid(self.0)
    }

    /// Reads an identifier from any text that `uuid` accepts; the canonical
    /// text of a UUID always reads back as that UUID.
    pub fn parse(s: &str) -> (r: Result<WarehouseIdent, IcebergErrorResponse>)
        ensures
            r is Ok <==> uuid_parse_outcome(s@) is Ok,
            !uuid_length(s@.len()) ==> r is Err,
            r is Ok ==> r->Ok_0@ == uuid_parse_outcome(s@)->Ok_0,
            r is Err ==> crate::error_model::is_bad_request_with(
                r->Err_0.error,
                "Provided warehouse id is not a valid UUID"@,
                "WarehouseIDIsNotUUID"@,
                uuid_parse_outcome(s@)->Err_0,
            ),
            forall|id: WarehouseIdent| #[trigger] uuid_text(id@) == s@ ==> r == Ok::<
                WarehouseIdent,
                IcebergErrorResponse,
            >(id),
    {
        match parse_uuid(s) {
            Ok(v) => {
                proof {
                    assert forall|id: WarehouseIdent|
                        #[trigger] uuid_text(id@) == s@ implies v == id@ by {
                        assert(is_uuid_text(s@));
                        crate::text::lemma_uuid_text_injective(v, id@);
                    }
                }
                Ok(WarehouseIdent(v))
            },
            Err(diagnostic) => {
                proof {
                    assert forall|id: WarehouseIdent|
                        #[trigger] uuid_text(id@) == s@ implies false by {
                        assert(is_uuid_text(s@));
                    }
                }
                let message = String::from_str("Provided warehouse id is not a valid UUID");
                let tag = String::from_str("WarehouseIDIsNotUUID");
                let error = ErrorModel::bad_request_with(message, tag, diagnostic);
                Err(IcebergErrorResponse { error })
            },
        }
    }
}

impl std::str::FromStr for WarehouseIdent {
    type Err = IcebergErrorResponse;

    fn from_str(s: &str) -> Result<WarehouseIdent, IcebergErrorResponse> {
        WarehouseIdent::parse(s)
    }
}

impl std::ops::Deref for WarehouseIdent {
    type Target = u128;

    fn deref(&self) -> &u128 {
        &self.0
    }
}

impl From<u128> for WarehouseIdent {
    fn from(uuid: u128) -> (r: WarehouseIdent) {
        WarehouseIdent(uuid)
    }
}

impl vstd::std_specs::convert::FromSpecImpl<u128> for WarehouseIdent {
    open spec fn obeys_from_spec() -> bool {
        true
    }

    closed spec fn from_spec(uuid: u128) -> WarehouseIdent {
        WarehouseIdent(uuid)
    }
}

/// A path-prefix token of the REST API, taken as it came.
#[derive(Debug, Clone, PartialEq, Eq)]
pub struct Prefix(pub String);

impl Prefix {
    pub fn as_str(&self) -> (r: &str)
        ensures
            r@ == self.0@,
    {
        self.0.as_str()
    }
}

impl WarehouseIdent {
    /// Reads a warehouse from a path prefix; a prefix that is not a UUID is
    /// reported together with its text.
    pub fn try_from_prefix(value: &Prefix) -> (r: Result<WarehouseIdent, IcebergErrorResponse>)
        ensures
            r is Ok <==> uuid_parse_outcome(value.0@) is Ok,
            !uuid_length(value.0@.len()) ==> r is Err,
            r is Ok ==> r->Ok_0@ == uuid_parse_outcome(value.0@)->Ok_0,
            r is Err ==> crate::error_model::is_bad_request_with(
                r->Err_0.error,
                "Provided prefix is not a warehouse id. Expected UUID, got: "@ + value.0@,
                "PrefixIsNotWarehouseID"@,
                uuid_parse_outcome(value.0@)->Err_0,
            ),
    {
        match parse_uuid(value.as_str()) {
            Ok(v) => Ok(WarehouseIdent(v)),
            Err(diagnostic) => {
                let mut message = String::from_str(
                    "Provided prefix is not a warehouse id. Expected UUID, got: ",
                );
                message.append(value.as_str());
                let tag = String::from_str("PrefixIsNotWarehouseID");
                let error = ErrorModel::bad_request_with(message, tag, diagnostic);
                Err(IcebergErrorResponse { error })
            },
        }
    }
}

/// Status of a warehouse: only an active warehouse can be used.
#[derive(Clone, Copy, Debug, PartialEq, Eq, Structural, Hash, PartialOrd, Ord)]
pub enum WarehouseStatus {
    /// The warehouse is active and can be used.
    Active,
    /// The warehouse is inactive and cannot be used.
    Inactive,
}

impl WarehouseStatus {
    /// The kebab-case name under which the status is stored and shown.
    pub open spec fn name_spec(self) -> Seq<char> {
        match self {
            WarehouseStatus::Active => "active"@,
            WarehouseStatus::Inactive => "inactive"@,
        }
    }

    pub fn as_str(&self) -> (r: &'static str)
        ensures
            r@ == self.name_spec(),
    {
        match self {
            WarehouseStatus::Active => "active",
            WarehouseStatus::Inactive => "inactive",
        }
    }

    pub fn is_active(&self) -> (r: bool)
        ensures
            r == (*self == WarehouseStatus::Active),
    {
        match self {
            WarehouseStatus::Active => true,
            WarehouseStatus::Inactive => false,
        }
    }
}

} // verus!
