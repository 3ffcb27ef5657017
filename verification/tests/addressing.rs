//! Tests of the entity-addressing framework: refs, queries, datasets.

use sailboat_simulator::generic_ref::{GenericDataset, GenericQuery, GenericRef};
use sailboat_simulator::simulation::boat::SailSaveState;

#[test]
fn to_query_matches_same_id_only() {
    let r: GenericRef<u32> = GenericRef::id(5);
    let q = r.to_query();
    assert!(r.query_matches(&q));
    let same_id: GenericRef<u32> = GenericRef::id(5);
    assert!(same_id.query_matches(&q));
    let other: GenericRef<u32> = GenericRef::id(6);
    assert!(!other.query_matches(&q));
}

#[test]
fn alias_query_matches_aliased_ref() {
    let mut r: GenericRef<u32> = GenericRef::id(1);
    r.unique_name_opt = Some("main".to_string());
    let q: GenericQuery<u32> = GenericQuery::unique_name("main".to_string());
    assert!(r.query_matches(&q));
    let other_alias: GenericQuery<u32> = GenericQuery::unique_name("jib".to_string());
    assert!(!r.query_matches(&other_alias));
}

#[test]
fn alias_query_never_matches_anonymous_ref() {
    let r: GenericRef<u32> = GenericRef::id(1);
    let q: GenericQuery<u32> = GenericQuery::unique_name("main".to_string());
    assert!(!r.query_matches(&q));
}

#[test]
fn queries_match_by_exactly_one_criterion() {
    let mut r: GenericRef<u32> = GenericRef::id(3);
    r.unique_name_opt = Some("7".to_string());
    // An id query ignores the alias, even one that spells the queried id.
    let by_id: GenericQuery<u32> = GenericQuery::id(7);
    assert!(!r.query_matches(&by_id));
    // An alias query ignores the id, even one that spells the queried alias.
    let by_alias: GenericQuery<u32> = GenericQuery::unique_name("3".to_string());
    assert!(!r.query_matches(&by_alias));
}

fn two_sail_dataset(first_id: u64, second_id: u64) -> GenericDataset<SailSaveState> {
    let mut d: GenericDataset<SailSaveState> = GenericDataset::new();
    d.items.push((
        GenericRef::id(first_id),
        SailSaveState { angle: first_id as i64, sheeting_angle: 90 },
    ));
    d.items.push((
        GenericRef::id(second_id),
        SailSaveState { angle: second_id as i64, sheeting_angle: 90 },
    ));
    d
}

#[test]
fn lookup_is_insertion_order_independent() {
    let d12 = two_sail_dataset(1, 2);
    let d21 = two_sail_dataset(2, 1);
    for id in [1u64, 2u64] {
        let q: GenericQuery<SailSaveState> = GenericQuery::id(id);
        assert_eq!(d12.get_item_id(&q), Some(id));
        assert_eq!(d21.get_item_id(&q), Some(id));
        let (r12, s12) = d12.get_item_tuple(&q).unwrap();
        let (r21, s21) = d21.get_item_tuple(&q).unwrap();
        assert_eq!(r12.id, r21.id);
        assert_eq!(s12.angle, s21.angle);
    }
}

#[test]
fn lookup_miss_is_a_plain_none() {
    let d = two_sail_dataset(1, 2);
    let q: GenericQuery<SailSaveState> = GenericQuery::id(9);
    assert_eq!(d.get_item_index_with_query(&q), None);
    assert!(d.get_item_tuple(&q).is_none());
    assert_eq!(d.get_item_id(&q), None);
}

#[test]
fn lookup_returns_first_match() {
    // Duplicate ids are not rejected; lookup returns the first match.
    let mut d: GenericDataset<SailSaveState> = GenericDataset::new();
    d.items.push((GenericRef::id(1), SailSaveState { angle: 10, sheeting_angle: 90 }));
    d.items.push((GenericRef::id(1), SailSaveState { angle: 20, sheeting_angle: 90 }));
    let q: GenericQuery<SailSaveState> = GenericQuery::id(1);
    assert_eq!(d.get_item_index_with_query(&q), Some(0));
    assert_eq!(d.get_item_tuple(&q).unwrap().1.angle, 10);
}

#[test]
fn into_another_type_keeps_id_and_alias() {
    let mut r: GenericRef<u32> = GenericRef::id(5);
    r.unique_name_opt = Some("main".to_string());
    let r2: GenericRef<i8> = r.into_another_type();
    assert_eq!(r2.id, 5);
    assert_eq!(r2.unique_name_opt.as_deref(), Some("main"));
}

#[test]
fn ref_to_string_formats_id_and_alias() {
    let mut r: GenericRef<u32> = GenericRef::id(5);
    assert_eq!(r.to_string(), "5");
    r.unique_name_opt = Some("main".to_string());
    assert_eq!(r.to_string(), "5 (main)");
    let big: GenericRef<u32> = GenericRef::id(1234567890);
    assert_eq!(big.to_string(), "1234567890");
    let zero: GenericRef<u32> = GenericRef::id(0);
    assert_eq!(zero.to_string(), "0");
}

#[test]
fn query_equality_compares_payload_not_kind_tag() {
    let a: GenericQuery<u32> = GenericQuery::id(4);
    let b: GenericQuery<u32> = GenericQuery::id(4);
    let c: GenericQuery<u32> = GenericQuery::id(5);
    let d: GenericQuery<u32> = GenericQuery::unique_name("4".to_string());
    assert!(a == b);
    assert!(a != c);
    assert!(a != d);
    let e: GenericQuery<u32> = GenericQuery::unique_name("main".to_string());
    let f: GenericQuery<u32> = GenericQuery::unique_name("main".to_string());
    assert!(e == f);
}

#[test]
fn default_query_is_id_zero() {
    let q: GenericQuery<u32> = Default::default();
    let r: GenericRef<u32> = GenericRef::id(0);
    assert!(r.query_matches(&q));
    let other: GenericRef<u32> = GenericRef::id(1);
    assert!(!other.query_matches(&q));
}

#[test]
fn ref_equality_uses_id_and_alias_together() {
    let mut a: GenericRef<u32> = GenericRef::id(5);
    let b: GenericRef<u32> = GenericRef::id(5);
    assert!(a == b);
    a.unique_name_opt = Some("main".to_string());
    assert!(a != b);
    let cloned = a.clone();
    assert!(a == cloned);
}

#[test]
fn empty_dataset_finds_nothing() {
    let d: GenericDataset<SailSaveState> = GenericDataset::new();
    assert!(d.items.is_empty());
    let q: GenericQuery<SailSaveState> = GenericQuery::id(0);
    assert_eq!(d.get_item_index_with_query(&q), None);
    assert!(d.get_item_tuple(&q).is_none());
}
