use strategy_storage::catalog::{StrategyError, YetifyStrategyStorage};
use strategy_storage::record::{authorize, StrategyData, StrategyStep};
use strategy_storage::text::push_decimal;

fn s(x: &str) -> String {
    x.to_string()
}

fn full_record(id: &str, creator: &str, created_at: u64) -> StrategyData {
    let mut d = StrategyData::minimal(s(id), s("compound yield"), s(creator), created_at);
    d.chains = vec![s("near"), s("aurora")];
    d.protocols = vec![s("ref-finance")];
    d.steps = vec![StrategyStep {
        action: s("deposit"),
        protocol: s("ref-finance"),
        asset: s("USDC"),
        expected_apy: Some(0.05f64.to_bits()),
        amount: Some(s("100.5")),
    }];
    d.risk_level = s("low");
    d.estimated_apy = Some(0.07f64.to_bits());
    d.estimated_tvl = Some(s("1000000"));
    d.confidence = Some(0.9f64.to_bits());
    d.reasoning = Some(s("stable pools"));
    d.warnings = Some(vec![s("smart contract risk")]);
    d
}

fn ids(v: &[StrategyData]) -> Vec<String> {
    v.iter().map(|d| d.id.clone()).collect()
}

#[test]
fn scenario_create_update_delete() {
    let mut c = YetifyStrategyStorage::new();
    let r = c.store_strategy(s("alice"), 10, s("s1"), s("grow savings"));
    assert_eq!(r.ok().unwrap(), "Strategy 's1' stored successfully!");
    let got = c.get_strategy(s("s1")).unwrap();
    assert_eq!(got.creator, "alice");
    assert_eq!(got.risk_level, "medium");

    let mut patch = c.get_strategy(s("s1")).unwrap();
    patch.risk_level = s("high");
    assert!(matches!(c.update_strategy(s("bob"), patch.clone()), Err(StrategyError::Forbidden)));
    assert_eq!(c.get_strategy(s("s1")).unwrap().risk_level, "medium");

    let r = c.update_strategy(s("alice"), patch);
    assert_eq!(r.ok().unwrap(), "Strategy 's1' updated successfully!");
    let got = c.get_strategy(s("s1")).unwrap();
    assert_eq!(got.risk_level, "high");
    assert_eq!(got.creator, "alice");

    let r = c.delete_strategy(s("alice"), s("s1"));
    assert_eq!(r.ok().unwrap(), "Strategy 's1' deleted successfully! Total strategies: 0");
    assert_eq!(c.total_strategies(), 0);
    assert!(c.get_strategy(s("s1")).is_none());
}

#[test]
fn store_then_get_gives_minimal_record() {
    let mut c = YetifyStrategyStorage::new();
    c.store_strategy(s("carol.near"), 77, s("plan-9"), s("hedge")).ok().unwrap();
    let got = c.get_strategy(s("plan-9")).unwrap();
    assert_eq!(got.id, "plan-9");
    assert_eq!(got.goal, "hedge");
    assert_eq!(got.risk_level, "medium");
    assert_eq!(got.creator, "carol.near");
    assert_eq!(got.created_at, 77);
    assert!(got.chains.is_empty() && got.protocols.is_empty() && got.steps.is_empty());
    assert!(got.estimated_apy.is_none() && got.estimated_tvl.is_none());
    assert!(got.confidence.is_none() && got.reasoning.is_none() && got.warnings.is_none());
}

#[test]
fn store_with_empty_id_is_missing_field() {
    let mut c = YetifyStrategyStorage::new();
    match c.store_strategy(s("alice"), 1, s(""), s("goal")) {
        Err(StrategyError::MissingField(f)) => assert_eq!(f, "id"),
        _ => panic!("expected a missing id"),
    }
    match c.store_complete_strategy(s("alice"), 1, full_record("", "alice", 0)) {
        Err(StrategyError::MissingField(f)) => assert_eq!(f, "id"),
        _ => panic!("expected a missing id"),
    }
    assert_eq!(c.total_strategies(), 0);
}

#[test]
fn complete_store_stamps_caller_and_time() {
    let mut c = YetifyStrategyStorage::new();
    let r = c.store_complete_strategy(s("alice"), 1234, full_record("x1", "mallory", 1));
    assert_eq!(r.ok().unwrap(), "Complete strategy 'x1' stored successfully! Total strategies: 1");
    let got = c.get_strategy(s("x1")).unwrap();
    assert_eq!(got.creator, "alice");
    assert_eq!(got.created_at, 1234);
    assert_eq!(got.chains, vec![s("near"), s("aurora")]);
    assert_eq!(got.steps.len(), 1);
    assert_eq!(got.steps[0].amount, Some(s("100.5")));
    assert_eq!(f64::from_bits(got.steps[0].expected_apy.unwrap()), 0.05);
    assert_eq!(f64::from_bits(got.confidence.unwrap()), 0.9);
    assert_eq!(got.warnings, Some(vec![s("smart contract risk")]));
}

#[test]
fn storing_an_existing_id_replaces_without_counting_twice() {
    let mut c = YetifyStrategyStorage::new();
    c.store_strategy(s("alice"), 1, s("a"), s("first")).ok().unwrap();
    c.store_strategy(s("alice"), 2, s("b"), s("second")).ok().unwrap();
    c.store_strategy(s("bob"), 3, s("a"), s("again")).ok().unwrap();
    assert_eq!(c.total_strategies(), 2);
    let got = c.get_strategy(s("a")).unwrap();
    assert_eq!(got.goal, "again");
    assert_eq!(got.creator, "bob");
    assert_eq!(ids(&c.get_all_strategies()), vec![s("a"), s("b")]);
    let r = c.store_complete_strategy(s("bob"), 4, full_record("b", "bob", 0));
    assert_eq!(r.ok().unwrap(), "Complete strategy 'b' stored successfully! Total strategies: 2");
}

#[test]
fn count_matches_listing_after_mixed_operations() {
    let mut c = YetifyStrategyStorage::new();
    for (i, who) in ["alice", "bob", "alice", "dave"].iter().enumerate() {
        c.store_strategy(s(who), i as u64, format!("id{}", i), s("g")).ok().unwrap();
        assert_eq!(c.total_strategies() as usize, c.get_all_strategies().len());
    }
    c.store_strategy(s("bob"), 9, s("id1"), s("again")).ok().unwrap();
    assert_eq!(c.total_strategies() as usize, c.get_all_strategies().len());
    let mut p = c.get_strategy(s("id0")).unwrap();
    p.goal = s("changed");
    c.update_strategy(s("alice"), p).ok().unwrap();
    assert_eq!(c.total_strategies() as usize, c.get_all_strategies().len());
    c.delete_strategy(s("dave"), s("id3")).ok().unwrap();
    assert!(c.delete_strategy(s("dave"), s("id3")).is_err());
    assert_eq!(c.total_strategies(), 3);
    assert_eq!(c.total_strategies() as usize, c.get_all_strategies().len());
    assert_eq!(c.get_contract_info(), "Yetify Strategy Storage - Total strategies: 3");
}

#[test]
fn update_by_other_identity_is_forbidden_and_changes_nothing() {
    let mut c = YetifyStrategyStorage::new();
    c.store_complete_strategy(s("alice"), 5, full_record("k", "alice", 0)).ok().unwrap();
    let before = c.get_strategy(s("k")).unwrap();
    let mut forged = full_record("k", "bob", 99);
    forged.goal = s("stolen");
    assert!(matches!(c.update_strategy(s("bob"), forged), Err(StrategyError::Forbidden)));
    let after = c.get_strategy(s("k")).unwrap();
    assert_eq!(after.goal, before.goal);
    assert_eq!(after.creator, before.creator);
    assert_eq!(after.created_at, before.created_at);
    assert_eq!(after.steps.len(), before.steps.len());
    assert_eq!(after.warnings, before.warnings);
}

#[test]
fn update_by_creator_keeps_creator_and_creation_time() {
    let mut c = YetifyStrategyStorage::new();
    c.store_strategy(s("alice"), 42, s("k"), s("old goal")).ok().unwrap();
    let mut payload = full_record("k", "mallory", 7);
    payload.goal = s("new goal");
    payload.reasoning = None;
    c.update_strategy(s("alice"), payload).ok().unwrap();
    let got = c.get_strategy(s("k")).unwrap();
    assert_eq!(got.creator, "alice");
    assert_eq!(got.created_at, 42);
    assert_eq!(got.goal, "new goal");
    assert_eq!(got.risk_level, "low");
    assert!(got.reasoning.is_none());
    assert_eq!(c.total_strategies(), 1);
}

#[test]
fn update_of_unknown_id_is_not_found() {
    let mut c = YetifyStrategyStorage::new();
    match c.update_strategy(s("alice"), full_record("ghost", "alice", 0)) {
        Err(StrategyError::NotFound(id)) => assert_eq!(id, "ghost"),
        _ => panic!("expected not found"),
    }
    assert_eq!(c.total_strategies(), 0);
}

#[test]
fn delete_by_other_identity_is_forbidden() {
    let mut c = YetifyStrategyStorage::new();
    c.store_strategy(s("alice"), 1, s("d"), s("goal")).ok().unwrap();
    assert!(matches!(c.delete_strategy(s("bob"), s("d")), Err(StrategyError::Forbidden)));
    assert_eq!(c.get_strategy(s("d")).unwrap().creator, "alice");
    assert_eq!(c.total_strategies(), 1);
}

#[test]
fn delete_by_creator_removes_one() {
    let mut c = YetifyStrategyStorage::new();
    c.store_strategy(s("alice"), 1, s("a"), s("g")).ok().unwrap();
    c.store_strategy(s("alice"), 2, s("b"), s("g")).ok().unwrap();
    c.store_strategy(s("bob"), 3, s("c"), s("g")).ok().unwrap();
    let r = c.delete_strategy(s("alice"), s("b"));
    assert_eq!(r.ok().unwrap(), "Strategy 'b' deleted successfully! Total strategies: 2");
    assert!(c.get_strategy(s("b")).is_none());
    assert_eq!(c.total_strategies(), 2);
    assert_eq!(ids(&c.get_all_strategies()), vec![s("a"), s("c")]);
}

#[test]
fn delete_of_unknown_id_is_not_found() {
    let mut c = YetifyStrategyStorage::new();
    match c.delete_strategy(s("alice"), s("nope")) {
        Err(StrategyError::NotFound(id)) => assert_eq!(id, "nope"),
        _ => panic!("expected not found"),
    }
    assert_eq!(c.total_strategies(), 0);
}

#[test]
fn list_by_creator_is_the_owned_subset() {
    let mut c = YetifyStrategyStorage::new();
    c.store_strategy(s("alice"), 1, s("a"), s("g")).ok().unwrap();
    c.store_strategy(s("bob"), 2, s("b"), s("g")).ok().unwrap();
    c.store_strategy(s("alice"), 3, s("c"), s("g")).ok().unwrap();
    let all = c.get_all_strategies();
    let mine = c.get_strategies_by_creator(s("alice"));
    assert_eq!(ids(&mine), vec![s("a"), s("c")]);
    let expected: Vec<String> =
        all.iter().filter(|d| d.creator == "alice").map(|d| d.id.clone()).collect();
    assert_eq!(ids(&mine), expected);
    assert_eq!(ids(&c.get_strategies_by_creator(s("bob"))), vec![s("b")]);
    assert!(c.get_strategies_by_creator(s("nobody")).is_empty());
}

#[test]
fn empty_catalog_reads() {
    let c = YetifyStrategyStorage::default();
    assert_eq!(c.total_strategies(), 0);
    assert!(c.get_all_strategies().is_empty());
    assert!(c.get_strategy(s("any")).is_none());
    assert_eq!(c.get_contract_info(), "Yetify Strategy Storage - Total strategies: 0");
}

#[test]
fn default_record_has_documented_defaults() {
    let d = StrategyData::default();
    assert_eq!(d.id, "");
    assert_eq!(d.risk_level, "medium");
    assert_eq!(d.creator, "default.testnet");
    assert_eq!(d.created_at, 0);
}

#[test]
fn authorize_checks_creator() {
    let d = full_record("z", "alice", 0);
    assert!(authorize(&d, &s("alice")));
    assert!(!authorize(&d, &s("bob")));
    assert!(!authorize(&d, &s("Alice")));
}

#[test]
fn clone_copies_every_field() {
    let d = full_record("z", "alice", 3);
    let e = d.clone();
    assert_eq!(e.id, d.id);
    assert_eq!(e.chains, d.chains);
    assert_eq!(e.steps[0].asset, "USDC");
    assert_eq!(e.estimated_tvl, d.estimated_tvl);
}

#[test]
fn from_records_rejects_duplicate_ids() {
    let ok = YetifyStrategyStorage::from_records(vec![
        full_record("a", "alice", 1),
        full_record("b", "bob", 2),
    ])
    .unwrap();
    assert_eq!(ok.total_strategies(), 2);
    assert_eq!(ok.get_strategy(s("b")).unwrap().creator, "bob");
    assert!(YetifyStrategyStorage::from_records(vec![
        full_record("a", "alice", 1),
        full_record("b", "bob", 2),
        full_record("a", "bob", 3),
    ])
    .is_none());
    assert!(YetifyStrategyStorage::from_records(vec![]).is_some());
}

#[test]
fn decimal_rendering() {
    let mut out = s("n=");
    push_decimal(&mut out, 0);
    assert_eq!(out, "n=0");
    let mut out = String::new();
    push_decimal(&mut out, 1907);
    assert_eq!(out, "1907");
    let mut out = String::new();
    push_decimal(&mut out, u64::MAX);
    assert_eq!(out, u64::MAX.to_string());
}
