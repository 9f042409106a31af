use eclair_tortoise::audit::AuditInfo;
use eclair_tortoise::channel::{ChannelInfo, ChannelState};
use eclair_tortoise::plugin::{plugin_probe_outcome, NodePlugin, ProbeOutcome};
use eclair_tortoise::query::node_ids_to_query;
use eclair_tortoise::snapshot::Ratio;
use eclair_tortoise::stats::{ChannelExt, ChannelStats, ChannelType, FiatChannelData};

fn bare_channel(node_id: &str, channel_id: &str, state: ChannelState) -> ChannelInfo {
    ChannelInfo {
        node_id: node_id.to_string(),
        channel_id: channel_id.to_string(),
        state,
        data: None,
    }
}

#[test]
fn channel_state_groups_are_disjoint() {
    let active = [ChannelState::Normal];
    let pending = [
        ChannelState::Opening,
        ChannelState::Closing,
        ChannelState::Syncing,
        ChannelState::WaitForFundingConfirmed,
    ];
    let sleeping = [ChannelState::Offline];
    for s in active {
        assert!(s.is_normal() && !s.is_pending() && !s.is_sleeping());
    }
    for s in pending {
        assert!(!s.is_normal() && s.is_pending() && !s.is_sleeping());
    }
    for s in sleeping {
        assert!(!s.is_normal() && !s.is_pending() && s.is_sleeping());
    }
    // Closed is terminal: in no group.
    let closed = ChannelState::Closed;
    assert!(!closed.is_normal() && !closed.is_pending() && !closed.is_sleeping());
}

#[test]
fn channel_without_payload_has_zero_volume() {
    let c = bare_channel("node", "chan", ChannelState::Normal);
    assert_eq!(c.volume(), 0);
}

#[test]
fn known_plugins_and_labels() {
    let known = NodePlugin::known();
    assert_eq!(known, vec![NodePlugin::HostedChannels, NodePlugin::FiatChannels]);
    assert_eq!(NodePlugin::HostedChannels.label(), "hosted channels");
    assert_eq!(NodePlugin::FiatChannels.label(), "fiat channels");
}

#[test]
fn probe_outcome_distinguishes_not_found_from_failure() {
    assert_eq!(plugin_probe_outcome(404), ProbeOutcome::Unsupported);
    assert_eq!(plugin_probe_outcome(200), ProbeOutcome::Supported);
    assert_eq!(plugin_probe_outcome(201), ProbeOutcome::Supported);
    assert_eq!(plugin_probe_outcome(400), ProbeOutcome::Failed);
    assert_eq!(plugin_probe_outcome(500), ProbeOutcome::Failed);
    assert_eq!(plugin_probe_outcome(599), ProbeOutcome::Failed);
    assert_eq!(plugin_probe_outcome(302), ProbeOutcome::Supported);
}

#[test]
fn channel_stats_accessors() {
    let stats = ChannelStats {
        chan_state: ChannelState::Normal,
        node_id: "node".to_string(),
        chan_id: "chan".to_string(),
        alias: "alias".to_string(),
        local: 700,
        remote: 300,
        relays_amount: 0,
        relays_volume: 0,
        relays_fees: 0,
        info_id: 0,
        public: true,
        channel_ext: ChannelExt::Normal,
    };
    assert_eq!(stats.volume(), 1000);
    assert!(stats.is_normal_channel());
    assert_eq!(stats.rate(), 0);
    assert_eq!(stats.channel_ext.channel_type(), ChannelType::Normal);

    assert_eq!(stats.fiat_balance(), Some(Ratio { numer: 0, denom: 1 }));
    assert_eq!(stats.reverse_rate(), Some(Ratio { numer: 0, denom: 1 }));

    let fiat = ChannelStats {
        channel_ext: ChannelExt::HostedFiat(FiatChannelData { rate: 45000, balance_msat: 90000 }),
        ..stats.clone()
    };
    assert!(!fiat.is_normal_channel());
    assert_eq!(fiat.rate(), 45000);
    assert_eq!(fiat.channel_ext.channel_type(), ChannelType::HostedFiat);
    assert_eq!(fiat.fiat_balance(), Some(Ratio { numer: 90000, denom: 45000 }));
    assert_eq!(fiat.reverse_rate(), Some(Ratio { numer: 100_000_000_000, denom: 45000 }));

    let broken = ChannelStats {
        channel_ext: ChannelExt::HostedFiat(FiatChannelData { rate: 0, balance_msat: 90000 }),
        ..stats
    };
    assert_eq!(broken.fiat_balance(), None);
    assert_eq!(broken.reverse_rate(), None);
}

#[test]
fn node_ids_deduplicate_keeping_first_occurrence() {
    let channels = vec![
        bare_channel("a", "c1", ChannelState::Normal),
        bare_channel("b", "c2", ChannelState::Normal),
        bare_channel("a", "c3", ChannelState::Offline),
        bare_channel("c", "c4", ChannelState::Normal),
        bare_channel("b", "c5", ChannelState::Closed),
    ];
    let ids = node_ids_to_query(&channels);
    assert_eq!(ids, vec!["a".to_string(), "b".to_string(), "c".to_string()]);
}

#[test]
fn empty_audit_log_by_default() {
    let audit = AuditInfo::default();
    assert!(audit.sent.is_empty());
    assert!(audit.received.is_empty());
    assert!(audit.relayed.is_empty());
}
