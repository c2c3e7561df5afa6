use nostr::key::Keys;
use nostr::nips::nip19::ToBech32;
use rovr::reconcile::{sets_equal, member, Reconciler};

fn npub_and_hex() -> (String, String) {
    let keys = Keys::generate();
    (
        keys.public_key().to_bech32().unwrap(),
        keys.public_key().to_hex(),
    )
}

#[test]
fn first_reconciliation_installs_unconditionally() {
    let mut rec = Reconciler::new("botpk".to_string());
    let current: Vec<String> = Vec::new();
    let filter = rec.reconcile(&current, 17).expect("first run must install");
    assert_eq!(filter.recipient, "botpk");
    assert!(filter.authors.is_empty());
    assert_eq!(filter.since, 17);
}

#[test]
fn unchanged_list_is_a_no_op() {
    let (npub, _) = npub_and_hex();
    let mut rec = Reconciler::new("botpk".to_string());
    let current = vec![npub.clone()];
    assert!(rec.reconcile(&current, 1).is_some());
    assert!(rec.reconcile(&current, 2).is_none());
}

#[test]
fn reordered_list_is_a_no_op() {
    let (npub_a, _) = npub_and_hex();
    let (npub_b, _) = npub_and_hex();
    let mut rec = Reconciler::new("botpk".to_string());
    let first = vec![npub_a.clone(), npub_b.clone()];
    let reordered = vec![npub_b, npub_a];
    assert!(rec.reconcile(&first, 1).is_some());
    assert!(rec.reconcile(&reordered, 2).is_none());
}

#[test]
fn changed_list_reinstalls() {
    let (npub_a, hex_a) = npub_and_hex();
    let (npub_b, hex_b) = npub_and_hex();
    let mut rec = Reconciler::new("botpk".to_string());
    assert!(rec.reconcile(&vec![npub_a.clone()], 1).is_some());
    let filter = rec
        .reconcile(&vec![npub_a, npub_b], 9)
        .expect("a grown set must reinstall");
    assert_eq!(filter.authors, vec![hex_a, hex_b]);
    assert_eq!(filter.since, 9);
}

#[test]
fn undecodable_entries_are_skipped() {
    let (npub, hex) = npub_and_hex();
    let mut rec = Reconciler::new("botpk".to_string());
    let current = vec!["not an identifier".to_string(), npub];
    let filter = rec.reconcile(&current, 3).unwrap();
    assert_eq!(filter.authors, vec![hex]);
}

#[test]
fn shrinking_to_empty_reinstalls_a_silent_filter() {
    let (npub, _) = npub_and_hex();
    let mut rec = Reconciler::new("botpk".to_string());
    assert!(rec.reconcile(&vec![npub], 1).is_some());
    let filter = rec.reconcile(&Vec::new(), 2).unwrap();
    assert!(filter.authors.is_empty());
}

#[test]
fn set_equality_ignores_order_and_repeats() {
    let a = vec!["x".to_string(), "y".to_string(), "x".to_string()];
    let b = vec!["y".to_string(), "x".to_string()];
    assert!(sets_equal(&a, &b));
    let c = vec!["y".to_string(), "z".to_string()];
    assert!(!sets_equal(&a, &c));
}

#[test]
fn membership_is_by_value() {
    let v = vec!["alpha".to_string(), "beta".to_string()];
    assert!(member(&v, &"beta".to_string()));
    assert!(!member(&v, &"gamma".to_string()));
}
