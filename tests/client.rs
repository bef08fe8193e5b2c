use iceberg_catalog::client::{
    advance, after_model_page, after_tuple_page, assign, check_model_version, BootstrapPhase, check_outcome, check_request, infer_project,
    require_authenticated, resolve_store, revoke, write_batch, PageStep, StoreAction, StoreRecord,
};
use iceberg_catalog::ident::ProjectIdent;
use iceberg_catalog::openfga::{OpenFGAError, TupleKey};
use iceberg_catalog::state::State;

fn key(i: usize) -> TupleKey {
    TupleKey { user: format!("user:{}", i), relation: "reader".into(), object: "table:t".into() }
}

fn keys(n: usize) -> Vec<TupleKey> {
    (0..n).map(key).collect()
}

#[test]
fn batch_over_ceiling_is_refused() {
    let r = write_batch("s".into(), "m".into(), keys(6), keys(5), 10);
    assert_eq!(r, Err(OpenFGAError::TooManyWrites { actual: 11, max: 10 }));
}

#[test]
fn batch_at_ceiling_is_one_transaction() {
    let r = write_batch("s".into(), "m".into(), keys(6), keys(4), 10).unwrap();
    assert_eq!(r.writes.len() + r.deletes.len(), 10);
    assert_eq!(r.store_id, "s");
    assert_eq!(r.authorization_model_id, "m");
    let empty = write_batch("s".into(), "m".into(), vec![], vec![], 0).unwrap();
    assert!(empty.writes.is_empty() && empty.deletes.is_empty());
}

#[test]
fn self_assignment_is_refused() {
    let r = assign("s".into(), "m".into(), "role:r".into(), "owner".into(), "role:r".into());
    assert_eq!(r, Err(OpenFGAError::SelfAssignment("role:r".into())));
}

#[test]
fn assignment_writes_one_tuple() {
    let r = assign("s".into(), "m".into(), "user:a".into(), "owner".into(), "project:p".into())
        .unwrap();
    assert_eq!(
        r.writes,
        vec![TupleKey { user: "user:a".into(), relation: "owner".into(), object: "project:p".into() }]
    );
    assert!(r.deletes.is_empty());
    let d = revoke("s".into(), "m".into(), "user:a".into(), "owner".into(), "project:p".into());
    assert!(d.writes.is_empty());
    assert_eq!(d.deletes.len(), 1);
    assert_eq!(d.deletes[0].user, "user:a");
}

#[test]
fn check_answers() {
    let c = check_request("s".into(), "m".into(), "user:a".into(), "select".into(), "table:t".into());
    let t = c.tuple_key.clone().unwrap();
    assert_eq!(check_outcome(true, t.clone()), Ok(()));
    assert_eq!(
        check_outcome(false, t),
        Err(OpenFGAError::Unauthorized {
            user: "user:a".into(),
            relation: "select".into(),
            object: "table:t".into()
        })
    );
}

#[test]
fn authentication_is_required() {
    assert_eq!(require_authenticated(&Some("user:a".into())), Ok(()));
    assert_eq!(require_authenticated(&None), Err(OpenFGAError::AuthenticationRequired));
}

#[test]
fn project_inference() {
    let p = ProjectIdent::from_uuid(7);
    let q = ProjectIdent::from_uuid(8);
    assert_eq!(infer_project(Some(p), &vec![]), Ok(p));
    assert_eq!(infer_project(Some(p), &vec![q, q]), Ok(p));
    assert_eq!(infer_project(None, &vec![q]), Ok(q));
    assert_eq!(infer_project(None, &vec![]), Err(OpenFGAError::NoProjectId));
    assert_eq!(infer_project(None, &vec![p, q]), Err(OpenFGAError::NoProjectId));
}

#[test]
fn pagination_ceiling() {
    assert_eq!(after_tuple_page(1, 3, "", key(0)), Ok(PageStep::Done));
    assert_eq!(after_tuple_page(2, 3, "tok", key(0)), Ok(PageStep::Next));
    assert_eq!(
        after_tuple_page(3, 3, "tok", key(0)),
        Err(OpenFGAError::TooManyPages { max_pages: 3, tuple: key(0) })
    );
    assert_eq!(after_tuple_page(3, 3, "", key(0)), Ok(PageStep::Done));
    assert_eq!(after_model_page(1, 1, ""), Ok(PageStep::Done));
    assert_eq!(after_model_page(1, 1, "tok"), Err(OpenFGAError::TooManyAuthorizationModels(1)));
}

#[test]
fn store_lookup() {
    let stores = vec![
        StoreRecord { id: "1".into(), name: "other".into() },
        StoreRecord { id: "2".into(), name: "authz".into() },
        StoreRecord { id: "3".into(), name: "authz".into() },
    ];
    assert_eq!(resolve_store(&stores, "authz", false), Ok(StoreAction::Use("2".into())));
    assert_eq!(resolve_store(&stores, "missing", true), Ok(StoreAction::Create));
    assert_eq!(
        resolve_store(&stores, "missing", false),
        Err(OpenFGAError::StoreNotFound { store: "missing".into() })
    );
    assert_eq!(resolve_store(&vec![], "authz", true), Ok(StoreAction::Create));
}

#[test]
fn state_keeps_its_handles() {
    let s = State::new(1u8, "catalog", vec![3]);
    assert_eq!((s.auth, s.catalog, s.secrets.clone()), (1u8, "catalog", vec![3]));
}

#[test]
fn model_version_must_be_known() {
    assert_eq!(check_model_version(2, &vec![1, 2, 3]), Ok(()));
    assert_eq!(
        check_model_version(4, &vec![1, 2, 3]),
        Err(OpenFGAError::UnknownModelVersionApplied(4))
    );
    assert_eq!(check_model_version(0, &vec![]), Err(OpenFGAError::UnknownModelVersionApplied(0)));
}

#[test]
fn bootstrap_moves_forward_and_stops_on_failure() {
    let mut phase = BootstrapPhase::Unresolved;
    let mut seen = vec![phase];
    while phase != BootstrapPhase::Ready {
        phase = advance(phase, Ok(())).unwrap();
        seen.push(phase);
    }
    assert_eq!(
        seen,
        vec![
            BootstrapPhase::Unresolved,
            BootstrapPhase::StoreResolved,
            BootstrapPhase::ModelResolved,
            BootstrapPhase::Ready
        ]
    );
    let failure = OpenFGAError::StoreNotFound { store: "authz".into() };
    assert_eq!(advance(BootstrapPhase::Unresolved, Err(failure.clone())), Err(failure));
}
