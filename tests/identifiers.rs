use iceberg_catalog::ident::{
    NamespaceIdentUuid, Prefix, ProjectIdent, TableIdentUuid, WarehouseIdent, WarehouseStatus,
};
use iceberg_catalog::namespace::{NamespaceIdent, NamespaceIdentExt};
use std::str::FromStr;

const SAMPLE: u128 = 0x67e5_5044_10b1_426f_9247_bb68_0e5f_e0c8;
const SAMPLE_TEXT: &str = "67e55044-10b1-426f-9247-bb680e5fe0c8";

#[test]
fn canonical_text_is_hyphenated_lowercase() {
    assert_eq!(ProjectIdent::from_uuid(SAMPLE).to_string(), SAMPLE_TEXT);
    assert_eq!(WarehouseIdent::from_uuid(0).to_string(), "00000000-0000-0000-0000-000000000000");
    assert_eq!(
        TableIdentUuid::from_uuid(u128::MAX).to_string(),
        "ffffffff-ffff-ffff-ffff-ffffffffffff"
    );
}

#[test]
fn round_trip_for_every_kind() {
    for v in [0u128, 1, SAMPLE, u128::MAX, 0x0123_4567_89ab_cdef_0011_2233_4455_6677] {
        let p = ProjectIdent::from_uuid(v);
        assert_eq!(ProjectIdent::parse(&p.to_string()), Ok(p));
        let w = WarehouseIdent::from_uuid(v);
        assert_eq!(WarehouseIdent::parse(&w.to_string()), Ok(w));
        let n = NamespaceIdentUuid::from_uuid(v);
        assert_eq!(NamespaceIdentUuid::parse(&n.to_string()), Ok(n));
        let t = TableIdentUuid::from_uuid(v);
        assert_eq!(TableIdentUuid::parse(&t.to_string()), Ok(t));
    }
}

#[test]
fn parse_accepts_other_uuid_forms() {
    let upper = ProjectIdent::parse("67E55044-10B1-426F-9247-BB680E5FE0C8").unwrap();
    assert_eq!(upper.to_uuid(), SAMPLE);
    assert_eq!(*upper, SAMPLE);
    let simple = WarehouseIdent::parse("67e5504410b1426f9247bb680e5fe0c8").unwrap();
    assert_eq!(*simple.as_uuid(), SAMPLE);
    let from_trait = TableIdentUuid::from_str(SAMPLE_TEXT).unwrap();
    assert_eq!(from_trait, TableIdentUuid::from(SAMPLE));
}

#[test]
fn non_uuid_is_rejected_per_kind() {
    let cases = [
        (ProjectIdent::parse("not-a-uuid").unwrap_err(), "project", "ProjectIDIsNotUUID"),
        (WarehouseIdent::parse("not-a-uuid").unwrap_err(), "warehouse", "WarehouseIDIsNotUUID"),
        (NamespaceIdentUuid::parse("not-a-uuid").unwrap_err(), "namespace", "NamespaceIDIsNotUUID"),
        (TableIdentUuid::parse("not-a-uuid").unwrap_err(), "table", "TableIDIsNotUUID"),
    ];
    for (err, word, tag) in cases {
        assert_eq!(err.error.code, 400);
        assert_eq!(err.error.error_type, tag);
        assert_eq!(err.error.message, format!("Provided {} id is not a valid UUID", word));
        assert_eq!(err.error.stack.as_ref().map(|s| s.len()), Some(1));
        assert!(err.error.source.is_none());
    }
}

#[test]
fn empty_and_truncated_texts_are_rejected() {
    assert!(ProjectIdent::parse("").is_err());
    assert!(ProjectIdent::parse(&SAMPLE_TEXT[..35]).is_err());
    assert!(ProjectIdent::parse("67e55044-10b1-426f-9247-bb680e5fe0cg").is_err());
}

#[test]
fn prefix_error_names_the_prefix() {
    let ok = WarehouseIdent::try_from_prefix(&Prefix(SAMPLE_TEXT.to_string())).unwrap();
    assert_eq!(ok, WarehouseIdent::from_uuid(SAMPLE));
    let err = WarehouseIdent::try_from_prefix(&Prefix("my-prefix".to_string())).unwrap_err();
    assert_eq!(err.error.code, 400);
    assert_eq!(err.error.error_type, "PrefixIsNotWarehouseID");
    assert_eq!(
        err.error.message,
        "Provided prefix is not a warehouse id. Expected UUID, got: my-prefix"
    );
    assert_eq!(err.error.stack.map(|s| s.len()), Some(1));
}

#[test]
fn warehouse_status_names() {
    assert_eq!(WarehouseStatus::Active.as_str(), "active");
    assert_eq!(WarehouseStatus::Inactive.as_str(), "inactive");
    assert!(WarehouseStatus::Active.is_active());
    assert!(!WarehouseStatus::Inactive.is_active());
    assert!(WarehouseStatus::Active < WarehouseStatus::Inactive);
}

fn ns(parts: &[&str]) -> NamespaceIdent {
    NamespaceIdent::from_vec(parts.iter().map(|p| p.to_string()).collect()).unwrap()
}

#[test]
fn namespace_parent() {
    assert_eq!(ns(&["a"]).parent(), None);
    assert_eq!(ns(&["a", "b"]).parent(), Some(ns(&["a"])));
    assert_eq!(ns(&["a", "b", "c"]).parent(), Some(ns(&["a", "b"])));
    assert_eq!(ns(&["a", "b", "c"]).parent().unwrap().inner(), vec!["a", "b"]);
}

#[test]
fn empty_namespace_has_no_ident_and_no_parent() {
    assert!(NamespaceIdent::from_vec(vec![]).is_err());
    assert_eq!(NamespaceIdent::from_vec(vec![]).ok().and_then(|n| n.parent()), None);
}
