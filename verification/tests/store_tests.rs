use eclair_tortoise::audit::AuditInfo;
use eclair_tortoise::node::{NodeFeatures, NodeInfo, NodeNetwork};
use eclair_tortoise::snapshot::{PollData, Snapshot};
use eclair_tortoise::store::Store;

fn node_info() -> NodeInfo {
    NodeInfo {
        version: "0.7.0".to_string(),
        node_id: "self".to_string(),
        alias: "me".to_string(),
        color: "#000000".to_string(),
        features: NodeFeatures { activated: vec![], unknown: vec![] },
        chain_hash: String::new(),
        network: NodeNetwork::Mainnet,
        block_height: 700_000,
        public_addresses: vec![],
        instance_id: String::new(),
    }
}

fn empty_poll() -> PollData {
    PollData {
        channels: vec![],
        audit: AuditInfo { sent: vec![], received: vec![], relayed: vec![] },
        nodes: vec![],
        hosted: vec![],
        fiat: vec![],
    }
}

#[test]
fn failed_cycle_appends_one_error_and_keeps_snapshot() {
    let mut store = Store::new(Snapshot::new(node_info()));
    let before = store.snapshot.clone();
    store.complete_cycle(Err("query failed: status 500".to_string()), 1_000_000);
    assert_eq!(store.errors.len(), 1);
    assert_eq!(store.errors[0], "query failed: status 500");
    assert_eq!(store.snapshot, before);
}

#[test]
fn successful_cycle_replaces_snapshot_and_keeps_errors() {
    let mut store = Store::new(Snapshot::new(node_info()));
    store.append_error("older failure".to_string());
    store.complete_cycle(Ok(empty_poll()), 2_000_000);
    assert_eq!(store.snapshot.built_at, 2_000_000);
    assert_eq!(store.snapshot.node_info.alias, "me");
    assert_eq!(store.errors, vec!["older failure".to_string()]);
}

#[test]
fn errors_accumulate_until_cleared() {
    let mut store = Store::new(Snapshot::new(node_info()));
    store.append_error("first".to_string());
    store.append_error("second".to_string());
    assert_eq!(store.errors, vec!["first".to_string(), "second".to_string()]);
    let snapshot_before = store.snapshot.clone();
    store.clear_errors();
    assert!(store.errors.is_empty());
    assert_eq!(store.snapshot, snapshot_before);
}

#[test]
fn replace_snapshot_swaps_wholesale() {
    let mut store = Store::new(Snapshot::new(node_info()));
    let mut other = Snapshot::new(node_info());
    other.built_at = 42;
    store.replace_snapshot(other.clone());
    assert_eq!(*store.read(), other);
}

#[test]
fn resize_through_store_changes_only_width_and_lines() {
    let mut store = Store::new(Snapshot::new(node_info()));
    store.append_error("kept".to_string());
    store.on_resize(40);
    assert_eq!(store.snapshot.screen_width, 40);
    assert!(store.snapshot.relays_amounts_line.is_empty());
    assert_eq!(store.errors, vec!["kept".to_string()]);
}
