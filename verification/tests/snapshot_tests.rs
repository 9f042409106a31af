use eclair_tortoise::audit::{AuditInfo, RelayedInfo};
use eclair_tortoise::channel::{
    ChannelChanges, ChannelCommitments, ChannelData, ChannelFlags, ChannelInfo,
    ChannelLocalParams, ChannelRemoteParams, ChannelState, CommitInput, CommitSpec, CommitTx,
    CommitTxAndSign, KeyPath, LocalCommit, RemoteCommit, RemoteNextCommit,
};
use eclair_tortoise::common::Timestamp;
use eclair_tortoise::hosted::{
    Commits, FiatChanData, FiatChannel, FiatCommits, HostedChanData, HostedChannel,
    InitHostedChannel, LastCrossSignedState,
};
use eclair_tortoise::node::{NetworkNode, NodeFeatures, NodeInfo, NodeNetwork};
use eclair_tortoise::snapshot::{build_snapshot, PollData, Ratio, Snapshot};
use eclair_tortoise::stats::{get_channel_stats, resolve_alias, ChannelExt};
use eclair_tortoise::channel::ChannelUpdate;

const DAY: u64 = 24 * 3600;
const MONTH: u64 = 30 * 24 * 3600;

fn features() -> NodeFeatures {
    NodeFeatures { activated: vec![], unknown: vec![] }
}

fn node_info() -> NodeInfo {
    NodeInfo {
        version: "0.7.0".to_string(),
        node_id: "self".to_string(),
        alias: "me".to_string(),
        color: "#000000".to_string(),
        features: features(),
        chain_hash: String::new(),
        network: NodeNetwork::Mainnet,
        block_height: 700_000,
        public_addresses: vec![],
        instance_id: String::new(),
    }
}

fn network_node(node_id: &str, alias: &str) -> NetworkNode {
    NetworkNode {
        signature: String::new(),
        features: features(),
        timestamp: 0,
        node_id: node_id.to_string(),
        rgb_color: String::new(),
        alias: alias.to_string(),
        addresses: vec![],
    }
}

fn commit_spec(to_local: u64, to_remote: u64) -> CommitSpec {
    CommitSpec { htlcs: vec![], commit_tx_feerate: 0, to_local, to_remote }
}

fn channel(node_id: &str, channel_id: &str, state: ChannelState, local: u64, remote: u64) -> ChannelInfo {
    let params_features = features();
    ChannelInfo {
        node_id: node_id.to_string(),
        channel_id: channel_id.to_string(),
        state,
        data: Some(ChannelData {
            _type: "channel".to_string(),
            commitments: ChannelCommitments {
                channel_id: channel_id.to_string(),
                channel_config: vec![],
                channel_features: vec![],
                local_params: ChannelLocalParams {
                    node_id: "self".to_string(),
                    funding_key_path: KeyPath { path: vec![] },
                    dust_limit: 0,
                    max_htlc_value_in_flight_msat: 0,
                    channel_reserve: 0,
                    htlc_minimum: 0,
                    to_self_delay: 0,
                    max_accepted_htlcs: 0,
                    is_funder: true,
                    default_final_script_pub_key: String::new(),
                    init_features: params_features.clone(),
                },
                remote_params: ChannelRemoteParams {
                    node_id: node_id.to_string(),
                    dust_limit: 0,
                    max_htlc_value_in_flight_msat: 0,
                    channel_reserve: 0,
                    htlc_minimum: 0,
                    to_self_delay: 0,
                    max_accepted_htlcs: 0,
                    funding_pub_key: String::new(),
                    revocation_basepoint: String::new(),
                    payment_basepoint: String::new(),
                    delayed_payment_basepoint: String::new(),
                    htlc_basepoint: String::new(),
                    init_features: params_features,
                },
                channel_flags: ChannelFlags {
                    is_enabled: None,
                    is_node1: None,
                    announce_channel: Some(true),
                },
                local_commit: LocalCommit {
                    index: 0,
                    commit_spec: commit_spec(local, remote),
                    commit_tx_and_remote_sig: CommitTxAndSign {
                        commit_tx: CommitTx { txid: String::new(), tx: String::new() },
                        remote_sig: String::new(),
                    },
                    htlc_txs_and_remote_sigs: vec![],
                },
                remote_commit: RemoteCommit {
                    index: 0,
                    commit_spec: commit_spec(remote, local),
                    txid: String::new(),
                    remote_per_commitment_point: String::new(),
                },
                local_changes: ChannelChanges { proposed: vec![], signed: vec![], acked: vec![] },
                remote_changes: ChannelChanges { proposed: vec![], signed: vec![], acked: vec![] },
                local_next_htlc_id: 0,
                remote_next_htlc_id: 0,
                remote_next_commit_info: RemoteNextCommit::Simple("waiting".to_string()),
                commit_input: CommitInput { out_point: String::new(), amount_satoshis: 0 },
                remote_per_commitment_secrets: None,
            },
            short_channel_id: None,
            buried: None,
            channel_announcement: None,
            channel_update: None,
        }),
    }
}

fn relay(amount_in: u64, amount_out: u64, from: &str, to: &str, ts: u64) -> RelayedInfo {
    RelayedInfo {
        _type: "payment-relayed".to_string(),
        amount_in,
        amount_out,
        payment_hash: "hash".to_string(),
        from_channel_id: from.to_string(),
        to_channel_id: to.to_string(),
        timestamp: Timestamp { iso: String::new(), unix: ts },
    }
}

fn channel_update() -> ChannelUpdate {
    ChannelUpdate {
        signature: String::new(),
        chain_hash: String::new(),
        short_channel_id: String::new(),
        timestamp: Timestamp { iso: String::new(), unix: 0 },
        channel_flags: ChannelFlags { is_enabled: None, is_node1: None, announce_channel: None },
        cltv_expiry_delta: 0,
        htlc_minimum_msat: 0,
        htlc_maximum_msat: 0,
        fee_base_msat: 0,
        fee_proportional_millionths: 0,
        tlv_stream: eclair_tortoise::channel::TlvStream {},
    }
}

fn hosted_channel(remote: &str, channel_id: &str, state: ChannelState, local: u64, rem: u64) -> (String, HostedChannel) {
    (
        channel_id.to_string(),
        HostedChannel {
            state,
            data: HostedChanData {
                commitments: Commits {
                    local_node_id: "self".to_string(),
                    remote_node_id: remote.to_string(),
                    channel_id: channel_id.to_string(),
                    local_spec: commit_spec(local, rem),
                    origin_channels: vec![],
                },
                channel_update: channel_update(),
                local_errors: vec![],
                remote_errors: None,
                resize_proposal: None,
                override_proposal: None,
                margin_proposal: None,
                channel_announcement: None,
            },
            next_local_spec: commit_spec(local, rem),
        },
    )
}

fn fiat_channel(remote: &str, channel_id: &str, state: ChannelState, local: u64, rem: u64, rate: u64) -> (String, FiatChannel) {
    (
        channel_id.to_string(),
        FiatChannel {
            state,
            data: FiatChanData {
                commitments: FiatCommits {
                    local_node_id: "self".to_string(),
                    remote_node_id: remote.to_string(),
                    channel_id: channel_id.to_string(),
                    local_spec: commit_spec(local, rem),
                    origin_channels: vec![],
                    last_cross_signed_state: LastCrossSignedState {
                        is_host: true,
                        refund_script_pub_key: String::new(),
                        init_hosted_channel: InitHostedChannel {
                            max_htlc_value_in_flight_msat: 0,
                            htlc_minimum_msat: 0,
                            max_accepted_htlcs: 0,
                            channel_capacity_msat: 0,
                            initial_client_balance_msat: 0,
                            initial_rate: rate,
                            features: vec![],
                        },
                        block_day: 0,
                        local_balance_msat: local,
                        remote_balance_msat: rem,
                        rate,
                        local_updates: 0,
                        remote_updates: 0,
                        incoming_htlcs: vec![],
                        outgoing_htlcs: vec![],
                        remote_sig_of_local: String::new(),
                        local_sig_of_remote: String::new(),
                    },
                },
                channel_update: channel_update(),
                local_errors: vec![],
                remote_errors: None,
                resize_proposal: None,
                override_proposal: None,
                margin_proposal: None,
                channel_announcement: None,
                last_oracle_state: None,
            },
            next_local_spec: commit_spec(local, rem),
        },
    )
}

fn empty_audit() -> AuditInfo {
    AuditInfo { sent: vec![], received: vec![], relayed: vec![] }
}

#[test]
fn three_channel_scenario_classifies_and_sums() {
    // Channels in states Normal / Offline / Opening with local balances
    // 1000 / 500 / 250 msat.
    let data = PollData {
        channels: vec![
            channel("n1", "c1", ChannelState::Normal, 1000, 10),
            channel("n2", "c2", ChannelState::Offline, 500, 20),
            channel("n3", "c3", ChannelState::Opening, 250, 30),
        ],
        audit: empty_audit(),
        nodes: vec![],
        hosted: vec![],
        fiat: vec![],
    };
    let s = build_snapshot(node_info(), data, 1_000_000, 80);
    assert_eq!(s.active_chans, 1);
    assert_eq!(s.active_sats, 1000);
    assert_eq!(s.pending_chans, 1);
    assert_eq!(s.pending_sats, 250);
    assert_eq!(s.sleeping_chans, 1);
    assert_eq!(s.sleeping_sats, 500);
    assert_eq!(s.local_volume(), 1750);
}

#[test]
fn closed_channels_are_excluded_from_all_groups() {
    let data = PollData {
        channels: vec![
            channel("n1", "c1", ChannelState::Normal, 1000, 10),
            channel("n2", "c2", ChannelState::Closed, 500, 20),
        ],
        audit: empty_audit(),
        nodes: vec![],
        hosted: vec![],
        fiat: vec![],
    };
    let s = build_snapshot(node_info(), data, 1_000_000, 80);
    assert_eq!(s.active_chans + s.pending_chans + s.sleeping_chans, 1);
    assert_eq!(s.active_sats + s.pending_sats + s.sleeping_sats, 1000);
}

#[test]
fn builder_is_deterministic_on_frozen_clock() {
    let now = 5 * MONTH;
    let mk = || PollData {
        channels: vec![
            channel("n1", "c1", ChannelState::Normal, 1000, 10),
            channel("n2", "c2", ChannelState::Offline, 500, 20),
        ],
        audit: AuditInfo {
            sent: vec![],
            received: vec![],
            relayed: vec![
                relay(100, 90, "c1", "c2", now - 100),
                relay(50, 45, "c2", "c1", now - DAY - 100),
            ],
        },
        nodes: vec![network_node("n1", "alice")],
        hosted: vec![hosted_channel("n3", "h1", ChannelState::Normal, 5, 6)],
        fiat: vec![fiat_channel("n4", "f1", ChannelState::Normal, 7, 8, 45000)],
    };
    let s1 = build_snapshot(node_info(), mk(), now, 80);
    let s2 = build_snapshot(node_info(), mk(), now, 80);
    assert_eq!(s1, s2);
}

#[test]
fn windowed_totals_separate_day_and_month() {
    let now = 5 * MONTH;
    let data = PollData {
        channels: vec![],
        audit: AuditInfo {
            sent: vec![],
            received: vec![],
            relayed: vec![
                relay(100, 90, "c1", "c2", now - 100),            // trailing day
                relay(50, 45, "c2", "c1", now - 2 * DAY),         // trailing month only
                relay(30, 30, "c1", "c2", now - 2 * MONTH),       // outside both
            ],
        },
        nodes: vec![],
        hosted: vec![],
        fiat: vec![],
    };
    let s = build_snapshot(node_info(), data, now, 80);
    assert_eq!(s.relayed_day, 100);
    assert_eq!(s.relayed_month, 150);
    assert_eq!(s.relayed_count_day, 1);
    assert_eq!(s.relayed_count_month, 2);
    assert_eq!(s.fee_day, 10);
    assert_eq!(s.fee_month, 15);
    assert_eq!(s.get_relayed_day(), 100);
    assert_eq!(s.get_relayed_month(), 150);
    assert_eq!(s.get_relayed_count_day(), 1);
    assert_eq!(s.get_relayed_count_month(), 2);
    assert_eq!(s.get_fee_day(), 10);
    assert_eq!(s.get_fee_month(), 15);
}

#[test]
fn per_channel_stats_attribute_relays_by_either_end() {
    let now = 5 * MONTH;
    let relayed = vec![
        relay(100, 90, "c1", "c2", now - 100),   // touches c1 and c2
        relay(40, 35, "c3", "c1", now - 200),    // touches c1
        relay(7, 6, "c3", "c4", now - 300),      // touches neither
        relay(99, 98, "c1", "c2", now - 2 * DAY),// outside the lookback
    ];
    let nodes = vec![network_node("n1", "alice")];
    let chan = channel("n1", "c1", ChannelState::Normal, 700, 300);
    let stats = get_channel_stats(4, DAY, &chan, &relayed, &nodes, now);
    assert_eq!(stats.relays_amount, 2);
    assert_eq!(stats.relays_volume, 140);
    assert_eq!(stats.relays_fees, 15);
    assert_eq!(stats.local, 700);
    assert_eq!(stats.remote, 300);
    assert_eq!(stats.alias, "alice");
    assert_eq!(stats.chan_id, "c1");
    assert_eq!(stats.node_id, "n1");
    assert_eq!(stats.info_id, 4);
    assert!(stats.public);
    assert_eq!(stats.channel_ext, ChannelExt::Normal);
    assert_eq!(stats.volume(), 1000);
}

#[test]
fn unknown_counterpart_falls_back_to_raw_id() {
    let nodes = vec![network_node("n1", "alice")];
    assert_eq!(resolve_alias(&nodes, &"n1".to_string()), "alice");
    assert_eq!(resolve_alias(&nodes, &"stranger".to_string()), "stranger");
    let empty: Vec<NetworkNode> = vec![];
    assert_eq!(resolve_alias(&empty, &"n9".to_string()), "n9");
}

#[test]
fn hosted_and_fiat_stats_carry_their_balances() {
    let now = 5 * MONTH;
    let data = PollData {
        channels: vec![],
        audit: AuditInfo {
            sent: vec![],
            received: vec![],
            relayed: vec![relay(20, 15, "h1", "f1", now - 50)],
        },
        nodes: vec![network_node("n3", "host-peer")],
        hosted: vec![hosted_channel("n3", "h1", ChannelState::Normal, 5000, 600)],
        fiat: vec![fiat_channel("n4", "f1", ChannelState::Offline, 7000, 90_000, 45_000)],
    };
    let s = build_snapshot(node_info(), data, now, 80);
    assert_eq!(s.hosted_stats.len(), 1);
    let h = &s.hosted_stats[0];
    assert_eq!(h.local, 5000);
    assert_eq!(h.remote, 600);
    assert_eq!(h.alias, "host-peer");
    assert_eq!(h.relays_amount, 1);
    assert_eq!(h.relays_fees, 5);
    assert_eq!(h.channel_ext, ChannelExt::Hosted);
    assert!(!h.public);

    assert_eq!(s.fiat_stats.len(), 1);
    let f = &s.fiat_stats[0];
    assert_eq!(f.local, 7000);
    assert_eq!(f.remote, 90_000);
    assert_eq!(f.alias, "n4");
    assert_eq!(f.relays_amount, 1);
    assert_eq!(f.rate(), 45_000);
    match &f.channel_ext {
        ChannelExt::HostedFiat(d) => {
            assert_eq!(d.rate, 45_000);
            assert_eq!(d.balance_msat, 90_000);
        },
        other => panic!("expected fiat extra data, got {:?}", other),
    }
}

#[test]
fn channel_without_payload_is_marked_hosted_kind() {
    let now = 1_000_000;
    let bare = ChannelInfo {
        node_id: "n1".to_string(),
        channel_id: "c1".to_string(),
        state: ChannelState::Normal,
        data: None,
    };
    let relayed: Vec<RelayedInfo> = vec![];
    let nodes: Vec<NetworkNode> = vec![];
    let stats = get_channel_stats(0, DAY, &bare, &relayed, &nodes, now);
    assert_eq!(stats.local, 0);
    assert_eq!(stats.remote, 0);
    assert!(!stats.public);
    assert_eq!(stats.channel_ext, ChannelExt::Hosted);
    assert_eq!(stats.relays_amount, 0);
}

#[test]
fn resize_reproduces_full_rebuild() {
    let now = 5 * MONTH;
    let mk = || PollData {
        channels: vec![channel("n1", "c1", ChannelState::Normal, 1000, 10)],
        audit: AuditInfo {
            sent: vec![],
            received: vec![],
            relayed: vec![
                relay(100, 90, "c1", "c2", now - 100),
                relay(50, 45, "c2", "c1", now - 3000),
                relay(10, 9, "c1", "c3", now - 40_000),
            ],
        },
        nodes: vec![],
        hosted: vec![],
        fiat: vec![],
    };
    let mut resized = build_snapshot(node_info(), mk(), now, 80);
    resized.resize(24);
    let rebuilt = build_snapshot(node_info(), mk(), now, 24);
    assert_eq!(resized.relays_amounts_line, rebuilt.relays_amounts_line);
    assert_eq!(resized.relays_volumes_line, rebuilt.relays_volumes_line);
    assert_eq!(resized.relays_maximum_count, rebuilt.relays_maximum_count);
    assert_eq!(resized.relays_maximum_volume, rebuilt.relays_maximum_volume);
    assert_eq!(resized.screen_width, 24);
    // Everything else survives the resize untouched.
    assert_eq!(resized.active_sats, rebuilt.active_sats);
    assert_eq!(resized.relayed_day, rebuilt.relayed_day);
    assert_eq!(resized.channels_stats, rebuilt.channels_stats);
}

#[test]
fn zero_volume_makes_return_rate_undefined() {
    // No channels at all: total channel volume 0, the annualized return
    // rate is undefined, and nothing panics.
    let data = PollData {
        channels: vec![],
        audit: AuditInfo {
            sent: vec![],
            received: vec![],
            relayed: vec![relay(100, 90, "c1", "c2", 1_000_000 - 100)],
        },
        nodes: vec![],
        hosted: vec![],
        fiat: vec![],
    };
    let s = build_snapshot(node_info(), data, 1_000_000, 80);
    assert!(s.fee_month > 0);
    assert_eq!(s.get_return_rate(), None);
    assert_eq!(s.relayed_percent(), None);
}

#[test]
fn return_rate_is_the_annualized_fee_ratio() {
    let now = 5 * MONTH;
    let data = PollData {
        channels: vec![channel("n1", "c1", ChannelState::Normal, 2000, 10)],
        audit: AuditInfo {
            sent: vec![],
            received: vec![],
            relayed: vec![relay(100, 90, "c1", "c2", now - 100)],
        },
        nodes: vec![],
        hosted: vec![],
        fiat: vec![],
    };
    let s = build_snapshot(node_info(), data, now, 80);
    assert_eq!(s.fee_month, 10);
    assert_eq!(s.local_volume(), 2000);
    assert_eq!(s.get_return_rate(), Some(Ratio { numer: 12 * 100 * 10, denom: 2000 }));
    assert_eq!(s.relayed_percent(), Some(Ratio { numer: 100 * 100, denom: 2000 }));
}

#[test]
fn fresh_snapshot_is_empty() {
    let s = Snapshot::new(node_info());
    assert_eq!(s.active_chans, 0);
    assert_eq!(s.screen_width, 80);
    assert!(s.relays_amounts_line.is_empty());
    assert_eq!(s.relays_maximum_count, 0);
    assert!(s.channels_stats.is_empty());
    assert_eq!(s.node_info.alias, "me");
}

#[test]
fn channel_volume_sums_both_sides() {
    let c = channel("n1", "c1", ChannelState::Normal, 700, 300);
    assert_eq!(c.volume(), 1000);
}
