//! The decisions of the authorization-store client. Each function takes what
//! the store answered (or nothing, where it decides before any call) and says
//! what to send next or how the operation ends; the caller performs the calls.
use crate::ident::ProjectIdent;
use crate::openfga::{CheckRequest, OpenFGAError, TupleKey, WriteRequest};
use vstd::prelude::*;

verus! {

/// The tuple written by an assignment, unless subject and object are the same
/// entity, which cannot hold a relation to itself.
pub open spec fn assignment_spec(subject: String, relation: String, object: String) -> Result<
    TupleKey,
    OpenFGAError,
> {
    if subject@ == object@ {
        Err(OpenFGAError::SelfAssignment(object))
    } else {
        Ok(TupleKey { user: subject, relation, object })
    }
}

/// The one transaction that writes `writes` and deletes `deletes`, unless the
/// batch holds more than `max` tuples.
pub open spec fn write_batch_spec(
    store_id: String,
    authorization_model_id: String,
    writes: Vec<TupleKey>,
    deletes: Vec<TupleKey>,
    max: i32,
) -> Result<WriteRequest, OpenFGAError> {
    let actual = writes@.len() + deletes@.len();
    if actual > max {
        Err(OpenFGAError::TooManyWrites { actual: actual as i32, max })
    } else {
        Ok(WriteRequest { store_id, writes, deletes, authorization_model_id })
    }
}

/// Checks the size of a batch before it is sent.
pub fn write_batch(
    store_id: String,
    authorization_model_id: String,
    writes: Vec<TupleKey>,
    deletes: Vec<TupleKey>,
    max: i32,
) -> (r: Result<WriteRequest, OpenFGAError>)
    requires
        writes@.len() + deletes@.len() <= i32::MAX,
    ensures
        r == write_batch_spec(store_id, authorization_model_id, writes, deletes, max),
{
    let actual = (writes.len() + deletes.len()) as i32;
    if actual > max {
        Err(OpenFGAError::TooManyWrites { actual, max })
    } else {
        Ok(WriteRequest { store_id, writes, deletes, authorization_model_id })
    }
}

/// The transaction that assigns `relation` on `object` to `subject`.
pub fn assign(
    store_id: String,
    authorization_model_id: String,
    subject: String,
    relation: String,
    object: String,
) -> (r: Result<WriteRequest, OpenFGAError>)
    ensures
        match assignment_spec(subject, relation, object) {
            Ok(t) => r is Ok && r->Ok_0.store_id == store_id && r->Ok_0.authorization_model_id
                == authorization_model_id && r->Ok_0.writes@ == seq![t] && r->Ok_0.deletes@.len()
                == 0,
            Err(e) => r == Err::<WriteRequest, OpenFGAError>(e),
        },
{
    if subject == object {
        return Err(OpenFGAError::SelfAssignment(object));
    }
    let mut writes: Vec<TupleKey> = Vec::new();
    writes.push(TupleKey { user: subject, relation, object });
    Ok(WriteRequest { store_id, writes, deletes: Vec::new(), authorization_model_id })
}

/// The transaction that revokes `relation` on `object` from `subject`.
pub fn revoke(
    store_id: String,
    authorization_model_id: String,
    subject: String,
    relation: String,
    object: String,
) -> (r: WriteRequest)
    ensures
        r.store_id == store_id,
        r.authorization_model_id == authorization_model_id,
        r.writes@.len() == 0,
        r.deletes@ == seq![TupleKey { user: subject, relation, object }],
{
    let mut deletes: Vec<TupleKey> = Vec::new();
    deletes.push(TupleKey { user: subject, relation, object });
    WriteRequest { store_id, writes: Vec::new(), deletes, authorization_model_id }
}

/// The check that asks whether `user` holds `relation` on `object`.
pub fn check_request(
    store_id: String,
    authorization_model_id: String,
    user: String,
    relation: String,
    object: String,
) -> (r: CheckRequest)
    ensures
        r == (CheckRequest {
            store_id,
            tuple_key: Some(TupleKey { user, relation, object }),
            authorization_model_id,
        }),
{
    CheckRequest {
        store_id,
        tuple_key: Some(TupleKey { user, relation, object }),
        authorization_model_id,
    }
}

/// How a check ends once the store has answered `allowed` for `tuple`.
pub fn check_outcome(allowed: bool, tuple: TupleKey) -> (r: Result<(), OpenFGAError>)
    ensures
        allowed ==> r is Ok,
        !allowed ==> r == Err::<(), OpenFGAError>(
            OpenFGAError::Unauthorized {
                user: tuple.user,
                relation: tuple.relation,
                object: tuple.object,
            },
        ),
{
    if allowed {
        Ok(())
    } else {
        Err(
            OpenFGAError::Unauthorized {
                user: tuple.user,
                relation: tuple.relation,
                object: tuple.object,
            },
        )
    }
}

/// Fails when no principal is attached to the request.
pub fn require_authenticated(principal: &Option<String>) -> (r: Result<(), OpenFGAError>)
    ensures
        principal is Some <==> r is Ok,
        principal is None ==> r == Err::<(), OpenFGAError>(OpenFGAError::AuthenticationRequired),
{
    match principal {
        Some(_) => Ok(()),
        None => Err(OpenFGAError::AuthenticationRequired),
    }
}

/// The project of a request: the one it names, else the only one among
/// `accessible`, the projects the principal can reach. A caller with a hint
/// need not look the accessible projects up: they are not read then.
pub fn infer_project(hint: Option<ProjectIdent>, accessible: &Vec<ProjectIdent>) -> (r: Result<
    ProjectIdent,
    OpenFGAError,
>)
    ensures
        hint is Some ==> r == Ok::<ProjectIdent, OpenFGAError>(hint->0),
        hint is None && accessible@.len() == 1 ==> r == Ok::<ProjectIdent, OpenFGAError>(
            accessible@[0],
        ),
        hint is None && accessible@.len() != 1 ==> r == Err::<ProjectIdent, OpenFGAError>(
            OpenFGAError::NoProjectId,
        ),
{
    match hint {
        Some(p) => Ok(p),
        None => {
            if accessible.len() == 1 {
                Ok(accessible[0])
            } else {
                Err(OpenFGAError::NoProjectId)
            }
        },
    }
}

/// What follows a page of a paginated listing.
#[derive(Clone, Copy, Debug, PartialEq, Eq, Structural)]
pub enum PageStep {
    /// The listing is complete.
    Done,
    /// Fetch the page that the continuation token points to.
    Next,
}

/// After `pages_read` pages of a tuple read for `tuple`, the last of which
/// ended with `continuation_token`: a further page is fetched only while
/// fewer than `max_pages` have been read.
pub fn after_tuple_page(
    pages_read: u32,
    max_pages: u32,
    continuation_token: &str,
    tuple: TupleKey,
) -> (r: Result<PageStep, OpenFGAError>)
    ensures
        continuation_token@.len() == 0 ==> r == Ok::<PageStep, OpenFGAError>(PageStep::Done),
        continuation_token@.len() > 0 && pages_read < max_pages ==> r == Ok::<
            PageStep,
            OpenFGAError,
        >(PageStep::Next),
        continuation_token@.len() > 0 && pages_read >= max_pages ==> r == Err::<
            PageStep,
            OpenFGAError,
        >(OpenFGAError::TooManyPages { max_pages, tuple }),
{
    if continuation_token.is_empty() {
        Ok(PageStep::Done)
    } else if pages_read < max_pages {
        Ok(PageStep::Next)
    } else {
        Err(OpenFGAError::TooManyPages { max_pages, tuple })
    }
}

/// After `pages_read` pages of authorization models, the same rule as for
/// tuples, failing with the number of pages allowed.
pub fn after_model_page(pages_read: u32, max_pages: u32, continuation_token: &str) -> (r: Result<
    PageStep,
    OpenFGAError,
>)
    ensures
        continuation_token@.len() == 0 ==> r == Ok::<PageStep, OpenFGAError>(PageStep::Done),
        continuation_token@.len() > 0 && pages_read < max_pages ==> r == Ok::<
            PageStep,
            OpenFGAError,
        >(PageStep::Next),
        continuation_token@.len() > 0 && pages_read >= max_pages ==> r == Err::<
            PageStep,
            OpenFGAError,
        >(OpenFGAError::TooManyAuthorizationModels(max_pages)),
{
    if continuation_token.is_empty() {
        Ok(PageStep::Done)
    } else if pages_read < max_pages {
        Ok(PageStep::Next)
    } else {
        Err(OpenFGAError::TooManyAuthorizationModels(max_pages))
    }
}

/// A store as the store listing describes it.
#[derive(Debug, Clone, PartialEq, Eq)]
pub struct StoreRecord {
    pub id: String,
    pub name: String,
}

/// How to go on once the store listing is known.
#[derive(Debug, Clone, PartialEq, Eq)]
pub enum StoreAction {
    /// Use the store with this id.
    Use(String),
    /// No store has the configured name: create it.
    Create,
}

/// No store before position `n` of `stores` is named `name`.
pub open spec fn unnamed_before(stores: Seq<StoreRecord>, name: Seq<char>, n: int) -> bool {
    forall|j: int| 0 <= j < n ==> (#[trigger] stores[j]).name@ != name
}

/// Finds the first store named `name`; where there is none, it is created
/// only if `create_missing`, and otherwise the deployment has not been
/// migrated.
pub fn resolve_store(stores: &Vec<StoreRecord>, name: &str, create_missing: bool) -> (r: Result<
    StoreAction,
    OpenFGAError,
>)
    ensures
        match r {
            Ok(StoreAction::Use(id)) => exists|i: int|
                0 <= i < stores@.len() && (#[trigger] stores@[i]).name@ == name@ && stores@[i].id
                    == id && unnamed_before(stores@, name@, i),
            Ok(StoreAction::Create) => create_missing && unnamed_before(
                stores@,
                name@,
                stores@.len() as int,
            ),
            Err(e) => !create_missing && unnamed_before(stores@, name@, stores@.len() as int)
                && e is StoreNotFound && e->StoreNotFound_store@ == name@,
        },
{
    let wanted = String::from_str(name);
    let mut i: usize = 0;
    while i < stores.len()
        invariant
            i <= stores@.len(),
            wanted@ == name@,
            unnamed_before(stores@, name@, i as int),
        decreases stores@.len() - i,
    {
        if stores[i].name == wanted {
            assert(stores@[i as int].name@ == name@);
            return Ok(StoreAction::Use(stores[i].id.clone()));
        }
        i = i + 1;
    }
    if create_missing {
        Ok(StoreAction::Create)
    } else {
        Err(OpenFGAError::StoreNotFound { store: String::from_str(name) })
    }
}

/// Fails unless the model version applied to the store is one of `known`.
pub fn check_model_version(applied: u64, known: &Vec<u64>) -> (r: Result<(), OpenFGAError>)
    ensures
        known@.contains(applied) ==> r is Ok,
        !known@.contains(applied) ==> r == Err::<(), OpenFGAError>(
            OpenFGAError::UnknownModelVersionApplied(applied),
        ),
{
    let mut i: usize = 0;
    while i < known.len()
        invariant
            i <= known@.len(),
            forall|j: int| 0 <= j < i ==> known@[j] != applied,
        decreases known@.len() - i,
    {
        if known[i] == applied {
            return Ok(());
        }
        i = i + 1;
    }
    Err(OpenFGAError::UnknownModelVersionApplied(applied))
}

/// The stages of start-up, in the only order in which they are passed.
#[derive(Clone, Copy, Debug, PartialEq, Eq, Structural)]
pub enum BootstrapPhase {
    Unresolved,
    StoreResolved,
    ModelResolved,
    Ready,
}

impl BootstrapPhase {
    pub open spec fn rank(self) -> nat {
        match self {
            BootstrapPhase::Unresolved => 0,
            BootstrapPhase::StoreResolved => 1,
            BootstrapPhase::ModelResolved => 2,
            BootstrapPhase::Ready => 3,
        }
    }
}

/// The phase after a stage of `phase` has ended with `outcome`: the next one
/// on success; a failure ends the attempt with that failure. Ready stays
/// Ready.
pub fn advance(phase: BootstrapPhase, outcome: Result<(), OpenFGAError>) -> (r: Result<
    BootstrapPhase,
    OpenFGAError,
>)
    ensures
        outcome is Err ==> r == Err::<BootstrapPhase, OpenFGAError>(outcome->Err_0),
        outcome is Ok && phase != BootstrapPhase::Ready ==> r is Ok && r->Ok_0.rank() == phase.rank()
            + 1,
        outcome is Ok && phase == BootstrapPhase::Ready ==> r == Ok::<
            BootstrapPhase,
            OpenFGAError,
        >(BootstrapPhase::Ready),
{
    match outcome {
        Err(e) => Err(e),
        Ok(()) => Ok(
            match phase {
                BootstrapPhase::Unresolved => BootstrapPhase::StoreResolved,
                BootstrapPhase::StoreResolved => BootstrapPhase::ModelResolved,
                BootstrapPhase::ModelResolved => BootstrapPhase::Ready,
                BootstrapPhase::Ready => BootstrapPhase::Ready,
            },
        ),
    }
}

/// An entity is never assigned a relation to itself, whatever the relation.
pub proof fn lemma_self_assignment_refused(x: String, relation: String)
    ensures
        assignment_spec(x, relation, x) == Err::<TupleKey, OpenFGAError>(
            OpenFGAError::SelfAssignment(x),
        ),
{
}

/// With a ceiling of `max` tuples, a batch of `max + 1` is refused with both
/// numbers, and a batch of exactly `max` becomes one transaction.
pub proof fn lemma_write_ceiling(
    store_id: String,
    authorization_model_id: String,
    writes: Vec<TupleKey>,
    deletes: Vec<TupleKey>,
    max: i32,
)
    requires
        0 <= max < i32::MAX,
    ensures
        writes@.len() + deletes@.len() == max + 1 ==> write_batch_spec(
            store_id,
            authorization_model_id,
            writes,
            deletes,
            max,
        ) == Err::<WriteRequest, OpenFGAError>(
            OpenFGAError::TooManyWrites { actual: (max + 1) as i32, max },
        ),
        writes@.len() + deletes@.len() == max ==> write_batch_spec(
            store_id,
            authorization_model_id,
            writes,
            deletes,
            max,
        ) == Ok::<WriteRequest, OpenFGAError>(
            WriteRequest { store_id, writes, deletes, authorization_model_id },
        ),
{
}

} // verus!
