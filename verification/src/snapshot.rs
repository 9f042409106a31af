use vstd::prelude::*;

use crate::audit::{AuditInfo, RelayedInfo};
use crate::channel::ChannelInfo;
use crate::histogram::{
    get_relays_amounts_line, get_relays_volumes_line, lemma_count_max_upto_empty,
    lemma_vol_max_upto_empty, spec_count_bucket, spec_count_max, spec_norm, spec_volume_bucket,
    spec_volume_max, LINE_PERIOD,
};
use crate::hosted::{FiatChannel, HostedChannel};
use crate::node::{NetworkNode, NodeInfo};
use crate::stats::{
    audit_ok, count_active, count_pending, count_sleeping, get_active_chans, get_active_sats,
    get_channels_stats, get_fee, get_fiat_stats, get_hosted_stats, get_pending_chans,
    get_pending_sats, get_relayed, get_relayed_count, get_sleeping_chans, get_sleeping_sats,
    lemma_group_sats_partition, spec_active_sats, spec_channel_stats, spec_fiat_stats,
    spec_hosted_stats, spec_pending_sats, spec_relayed_count, spec_relayed_fee,
    spec_relayed_volume, spec_sleeping_sats, spec_total_local, ChannelStats, DAY_SECS, MONTH_SECS,
};

verus! {

/// The raw results of one complete poll cycle, as the driver hands them to
/// the builder: the channel list, the audit log, the peer directory, and
/// the two optional secondary-channel maps (empty when the corresponding
/// capability is absent).
#[derive(Debug, Clone, PartialEq, Eq)]
pub struct PollData {
    pub channels: Vec<ChannelInfo>,
    pub audit: AuditInfo,
    pub nodes: Vec<NetworkNode>,
    pub hosted: Vec<(String, HostedChannel)>,
    pub fiat: Vec<(String, FiatChannel)>,
}

/// The numeric well-formedness the builder demands of its input: fees are
/// nonnegative and the total relayed volume and total local balance fit
/// the machine word.  Violations are treated as programming-contract
/// violations of the data source, not recoverable errors.
pub open spec fn poll_data_ok(d: PollData) -> bool {
    &&& audit_ok(d.audit)
    &&& spec_total_local(d.channels@) <= u64::MAX
}

/// An exact nonnegative rational, handed to the display layer, which may
/// render it in floating point.
#[derive(Debug, Clone, Copy, PartialEq, Eq, Structural)]
pub struct Ratio {
    pub numer: u128,
    pub denom: u64,
}

/// The complete, immutable set of derived metrics for one poll cycle.
/// A snapshot is constructed once per successful cycle and superseded,
/// never mutated in place — except by the resize path, which recomputes
/// only the two histogram series for a new display width.
#[derive(Debug, Clone, PartialEq, Eq)]
pub struct Snapshot {
    pub node_info: NodeInfo,

    pub active_chans: usize,
    pub pending_chans: usize,
    pub sleeping_chans: usize,

    pub active_sats: u64,
    pub pending_sats: u64,
    pub sleeping_sats: u64,

    pub relayed_count_month: u64,
    pub relayed_count_day: u64,
    pub relayed_month: u64,
    pub relayed_day: u64,

    pub fee_month: u64,
    pub fee_day: u64,

    pub screen_width: u16,
    pub relays_maximum_volume: u64,
    pub relays_maximum_count: u64,
    pub relays_amounts_line: Vec<u64>,
    pub relays_volumes_line: Vec<u64>,

    pub channels_stats: Vec<ChannelStats>,
    pub hosted_stats: Vec<ChannelStats>,
    pub fiat_stats: Vec<ChannelStats>,

    pub channels: Vec<ChannelInfo>,
    pub audit: AuditInfo,
    pub known_nodes: Vec<NetworkNode>,
    pub hc_channels: Vec<(String, HostedChannel)>,
    pub fc_channels: Vec<(String, FiatChannel)>,

    /// The clock value the cycle was built at; every trailing window ends
    /// here.
    pub built_at: u64,
    /// The lookback used for per-channel statistics.
    pub stats_interval: u64,
}

/// The snapshot's two histogram series and their maxima are exactly what
/// the binner produces from `relayed` at clock `now` and display width
/// `width`.
pub open spec fn lines_match(s: Snapshot, relayed: Seq<RelayedInfo>, now: u64, width: u16) -> bool {
    &&& s.relays_maximum_count == spec_count_max(relayed, now, LINE_PERIOD, width)
    &&& (s.relays_maximum_count == 0 ==> s.relays_amounts_line@.len() == 0)
    &&& (s.relays_maximum_count > 0 ==> s.relays_amounts_line@.len() == width - 2 && forall|
        b: int,
    |
        0 <= b < width - 2 ==> s.relays_amounts_line@[b] == spec_norm(
            spec_count_bucket(relayed, now, LINE_PERIOD, width, b),
            s.relays_maximum_count as int,
        ))
    &&& s.relays_maximum_volume == spec_volume_max(relayed, now, LINE_PERIOD, width)
    &&& (s.relays_maximum_volume == 0 ==> s.relays_volumes_line@.len() == 0)
    &&& (s.relays_maximum_volume > 0 ==> s.relays_volumes_line@.len() == width - 2 && forall|
        b: int,
    |
        0 <= b < width - 2 ==> s.relays_volumes_line@[b] == spec_norm(
            spec_volume_bucket(relayed, now, LINE_PERIOD, width, b),
            s.relays_maximum_volume as int,
        ))
}

/// Every derived field of `s` is the specified function of the given raw
/// inputs, the frozen clock `now`, and the display width — nothing mixed
/// in from any other poll cycle.
pub open spec fn snapshot_matches(
    s: Snapshot,
    node_info: NodeInfo,
    channels: Seq<ChannelInfo>,
    audit: AuditInfo,
    nodes: Seq<NetworkNode>,
    hosted: Seq<(String, HostedChannel)>,
    fiat: Seq<(String, FiatChannel)>,
    now: u64,
    width: u16,
) -> bool {
    &&& s.node_info == node_info
    &&& s.channels@ == channels
    &&& s.audit == audit
    &&& s.known_nodes@ == nodes
    &&& s.hc_channels@ == hosted
    &&& s.fc_channels@ == fiat
    &&& s.built_at == now
    &&& s.screen_width == width
    &&& s.stats_interval == DAY_SECS
    &&& s.active_chans == count_active(channels)
    &&& s.pending_chans == count_pending(channels)
    &&& s.sleeping_chans == count_sleeping(channels)
    &&& s.active_sats == spec_active_sats(channels)
    &&& s.pending_sats == spec_pending_sats(channels)
    &&& s.sleeping_sats == spec_sleeping_sats(channels)
    &&& s.relayed_count_day == spec_relayed_count(audit.relayed@, now, DAY_SECS)
    &&& s.relayed_count_month == spec_relayed_count(audit.relayed@, now, MONTH_SECS)
    &&& s.relayed_day == spec_relayed_volume(audit.relayed@, now, DAY_SECS)
    &&& s.relayed_month == spec_relayed_volume(audit.relayed@, now, MONTH_SECS)
    &&& s.fee_day == spec_relayed_fee(audit.relayed@, now, DAY_SECS)
    &&& s.fee_month == spec_relayed_fee(audit.relayed@, now, MONTH_SECS)
    &&& lines_match(s, audit.relayed@, now, width)
    &&& s.channels_stats@.len() == channels.len()
    &&& (forall|i: int|
        0 <= i < channels.len() ==> s.channels_stats@[i] == spec_channel_stats(
            i,
            DAY_SECS,
            channels[i],
            audit.relayed@,
            nodes,
            now,
        ))
    &&& s.hosted_stats@.len() == hosted.len()
    &&& (forall|i: int|
        0 <= i < hosted.len() ==> s.hosted_stats@[i] == spec_hosted_stats(
            i,
            hosted[i].0,
            hosted[i].1,
            audit.relayed@,
            nodes,
            now,
        ))
    &&& s.fiat_stats@.len() == fiat.len()
    &&& (forall|i: int|
        0 <= i < fiat.len() ==> s.fiat_stats@[i] == spec_fiat_stats(
            i,
            fiat[i].0,
            fiat[i].1,
            audit.relayed@,
            nodes,
            now,
        ))
}

impl Snapshot {
    /// The snapshot is internally consistent: every derived field agrees
    /// with the raw records it carries.
    pub open spec fn wf(self) -> bool {
        &&& self.screen_width >= 3
        &&& audit_ok(self.audit)
        &&& spec_total_local(self.channels@) <= u64::MAX
        &&& snapshot_matches(
            self,
            self.node_info,
            self.channels@,
            self.audit,
            self.known_nodes@,
            self.hc_channels@,
            self.fc_channels@,
            self.built_at,
            self.screen_width,
        )
    }
}

/// Build a complete snapshot from the raw results of one poll cycle: a
/// pure, deterministic transform of its arguments.  Every derived field of
/// the result is pinned to its defining aggregate, so re-running the
/// builder on an unchanged input set and a frozen clock reproduces the
/// snapshot exactly.
pub fn build_snapshot(node_info: NodeInfo, data: PollData, now: u64, width: u16) -> (s: Snapshot)
    requires
        width >= 3,
        poll_data_ok(data),
    ensures
        snapshot_matches(
            s,
            node_info,
            data.channels@,
            data.audit,
            data.nodes@,
            data.hosted@,
            data.fiat@,
            now,
            width,
        ),
        s.wf(),
{
    let active_chans = get_active_chans(&data.channels);
    let pending_chans = get_pending_chans(&data.channels);
    let sleeping_chans = get_sleeping_chans(&data.channels);
    let active_sats = get_active_sats(&data.channels);
    let pending_sats = get_pending_sats(&data.channels);
    let sleeping_sats = get_sleeping_sats(&data.channels);
    let relayed_day = get_relayed(&data.audit.relayed, now, DAY_SECS);
    let relayed_month = get_relayed(&data.audit.relayed, now, MONTH_SECS);
    let relayed_count_day = get_relayed_count(&data.audit.relayed, now, DAY_SECS);
    let relayed_count_month = get_relayed_count(&data.audit.relayed, now, MONTH_SECS);
    let fee_day = get_fee(&data.audit.relayed, now, DAY_SECS);
    let fee_month = get_fee(&data.audit.relayed, now, MONTH_SECS);
    let amounts = get_relays_amounts_line(&data.audit.relayed, now, width);
    let volumes = get_relays_volumes_line(&data.audit.relayed, now, width);
    let channels_stats = get_channels_stats(
        &data.channels,
        DAY_SECS,
        &data.audit.relayed,
        &data.nodes,
        now,
    );
    let hosted_stats = get_hosted_stats(&data.hosted, &data.audit.relayed, &data.nodes, now);
    let fiat_stats = get_fiat_stats(&data.fiat, &data.audit.relayed, &data.nodes, now);
    Snapshot {
        node_info,
        active_chans,
        pending_chans,
        sleeping_chans,
        active_sats,
        pending_sats,
        sleeping_sats,
        relayed_count_month,
        relayed_count_day,
        relayed_month,
        relayed_day,
        fee_month,
        fee_day,
        screen_width: width,
        relays_maximum_volume: volumes.1,
        relays_maximum_count: amounts.1,
        relays_amounts_line: amounts.0,
        relays_volumes_line: volumes.0,
        channels_stats,
        hosted_stats,
        fiat_stats,
        channels: data.channels,
        audit: data.audit,
        known_nodes: data.nodes,
        hc_channels: data.hosted,
        fc_channels: data.fiat,
        built_at: now,
        stats_interval: DAY_SECS,
    }
}

impl Snapshot {
    /// The snapshot a dashboard starts from, before the first poll cycle
    /// has completed: the node's identity with empty records, zero
    /// aggregates, and the default display width.
    pub fn new(node_info: NodeInfo) -> (s: Snapshot)
        ensures
            s.node_info == node_info,
            s.channels@.len() == 0,
            s.audit.relayed@.len() == 0,
            s.known_nodes@.len() == 0,
            s.hc_channels@.len() == 0,
            s.fc_channels@.len() == 0,
            s.channels_stats@.len() == 0,
            s.hosted_stats@.len() == 0,
            s.fiat_stats@.len() == 0,
            s.active_chans == 0 && s.pending_chans == 0 && s.sleeping_chans == 0,
            s.active_sats == 0 && s.pending_sats == 0 && s.sleeping_sats == 0,
            s.relayed_count_month == 0 && s.relayed_count_day == 0,
            s.relayed_month == 0 && s.relayed_day == 0,
            s.fee_month == 0 && s.fee_day == 0,
            s.relays_maximum_count == 0 && s.relays_maximum_volume == 0,
            s.relays_amounts_line@.len() == 0 && s.relays_volumes_line@.len() == 0,
            s.screen_width == 80,
            s.built_at == 0,
            s.stats_interval == DAY_SECS,
            s.wf(),
    {
        let s = Snapshot {
            node_info,
            active_chans: 0,
            pending_chans: 0,
            sleeping_chans: 0,
            active_sats: 0,
            pending_sats: 0,
            sleeping_sats: 0,
            relayed_count_month: 0,
            relayed_count_day: 0,
            relayed_month: 0,
            relayed_day: 0,
            fee_month: 0,
            fee_day: 0,
            screen_width: 80,
            relays_maximum_volume: 0,
            relays_maximum_count: 0,
            relays_amounts_line: Vec::new(),
            relays_volumes_line: Vec::new(),
            channels_stats: Vec::new(),
            hosted_stats: Vec::new(),
            fiat_stats: Vec::new(),
            channels: Vec::new(),
            audit: AuditInfo { sent: Vec::new(), received: Vec::new(), relayed: Vec::new() },
            known_nodes: Vec::new(),
            hc_channels: Vec::new(),
            fc_channels: Vec::new(),
            built_at: 0,
            stats_interval: DAY_SECS,
        };
        proof {
            lemma_empty_lines(s.audit.relayed@, 0, 80);
        }
        s
    }

    /// Recompute every derived field in place from the raw results of a
    /// fresh poll cycle, keeping the node identity and display width.
    /// Semantically this is wholesale replacement: no derived field of the
    /// previous cycle survives.
    pub fn rebuild(&mut self, data: PollData, now: u64)
        requires
            old(self).screen_width >= 3,
            poll_data_ok(data),
        ensures
            snapshot_matches(
                *final(self),
                old(self).node_info,
                data.channels@,
                data.audit,
                data.nodes@,
                data.hosted@,
                data.fiat@,
                now,
                old(self).screen_width,
            ),
            final(self).node_info == old(self).node_info,
            final(self).screen_width == old(self).screen_width,
            final(self).wf(),
    {
        let width = self.screen_width;
        let active_chans = get_active_chans(&data.channels);
        let pending_chans = get_pending_chans(&data.channels);
        let sleeping_chans = get_sleeping_chans(&data.channels);
        let active_sats = get_active_sats(&data.channels);
        let pending_sats = get_pending_sats(&data.channels);
        let sleeping_sats = get_sleeping_sats(&data.channels);
        let relayed_day = get_relayed(&data.audit.relayed, now, DAY_SECS);
        let relayed_month = get_relayed(&data.audit.relayed, now, MONTH_SECS);
        let relayed_count_day = get_relayed_count(&data.audit.relayed, now, DAY_SECS);
        let relayed_count_month = get_relayed_count(&data.audit.relayed, now, MONTH_SECS);
        let fee_day = get_fee(&data.audit.relayed, now, DAY_SECS);
        let fee_month = get_fee(&data.audit.relayed, now, MONTH_SECS);
        let amounts = get_relays_amounts_line(&data.audit.relayed, now, width);
        let volumes = get_relays_volumes_line(&data.audit.relayed, now, width);
        let channels_stats = get_channels_stats(
            &data.channels,
            DAY_SECS,
            &data.audit.relayed,
            &data.nodes,
            now,
        );
        let hosted_stats = get_hosted_stats(&data.hosted, &data.audit.relayed, &data.nodes, now);
        let fiat_stats = get_fiat_stats(&data.fiat, &data.audit.relayed, &data.nodes, now);
        self.active_chans = active_chans;
        self.pending_chans = pending_chans;
        self.sleeping_chans = sleeping_chans;
        self.active_sats = active_sats;
        self.pending_sats = pending_sats;
        self.sleeping_sats = sleeping_sats;
        self.relayed_count_month = relayed_count_month;
        self.relayed_count_day = relayed_count_day;
        self.relayed_month = relayed_month;
        self.relayed_day = relayed_day;
        self.fee_month = fee_month;
        self.fee_day = fee_day;
        self.relays_maximum_volume = volumes.1;
        self.relays_maximum_count = amounts.1;
        self.relays_amounts_line = amounts.0;
        self.relays_volumes_line = volumes.0;
        self.channels_stats = channels_stats;
        self.hosted_stats = hosted_stats;
        self.fiat_stats = fiat_stats;
        self.channels = data.channels;
        self.audit = data.audit;
        self.known_nodes = data.nodes;
        self.hc_channels = data.hosted;
        self.fc_channels = data.fiat;
        self.built_at = now;
        self.stats_interval = DAY_SECS;
    }

    /// Recompute the two histogram series for a new display width, from
    /// the relay events already embedded in the snapshot; no other field
    /// changes and no fresh poll is needed.  The window still ends at the
    /// snapshot's build time, so this is a pure function of the
    /// already-fetched events and the new width.
    pub fn resize(&mut self, new_width: u16)
        requires
            audit_ok(old(self).audit),
            new_width >= 3,
        ensures
            final(self).screen_width == new_width,
            lines_match(*final(self), old(self).audit.relayed@, old(self).built_at, new_width),
            final(self).node_info == old(self).node_info,
            final(self).channels == old(self).channels,
            final(self).audit == old(self).audit,
            final(self).known_nodes == old(self).known_nodes,
            final(self).hc_channels == old(self).hc_channels,
            final(self).fc_channels == old(self).fc_channels,
            final(self).channels_stats == old(self).channels_stats,
            final(self).hosted_stats == old(self).hosted_stats,
            final(self).fiat_stats == old(self).fiat_stats,
            final(self).active_chans == old(self).active_chans,
            final(self).pending_chans == old(self).pending_chans,
            final(self).sleeping_chans == old(self).sleeping_chans,
            final(self).active_sats == old(self).active_sats,
            final(self).pending_sats == old(self).pending_sats,
            final(self).sleeping_sats == old(self).sleeping_sats,
            final(self).relayed_count_month == old(self).relayed_count_month,
            final(self).relayed_count_day == old(self).relayed_count_day,
            final(self).relayed_month == old(self).relayed_month,
            final(self).relayed_day == old(self).relayed_day,
            final(self).fee_month == old(self).fee_month,
            final(self).fee_day == old(self).fee_day,
            final(self).built_at == old(self).built_at,
            final(self).stats_interval == old(self).stats_interval,
            old(self).wf() ==> final(self).wf(),
    {
        let now = self.built_at;
        let amounts = get_relays_amounts_line(&self.audit.relayed, now, new_width);
        let volumes = get_relays_volumes_line(&self.audit.relayed, now, new_width);
        self.screen_width = new_width;
        self.relays_maximum_count = amounts.1;
        self.relays_amounts_line = amounts.0;
        self.relays_maximum_volume = volumes.1;
        self.relays_volumes_line = volumes.0;
    }
}

/// With no relay events at all, both histogram maxima are 0 and both
/// series are empty.
proof fn lemma_empty_lines(relayed: Seq<RelayedInfo>, now: u64, width: u16)
    requires
        relayed.len() == 0,
    ensures
        spec_count_max(relayed, now, LINE_PERIOD, width) == 0,
        spec_volume_max(relayed, now, LINE_PERIOD, width) == 0,
{
    lemma_count_max_upto_empty(relayed, now, LINE_PERIOD, width, width - 2);
    lemma_vol_max_upto_empty(relayed, now, LINE_PERIOD, width, width - 2);
}

/// Re-running the builder on an unchanged input set with a frozen clock
/// yields an identical snapshot: every scalar field coincides and every
/// vector field holds the same values in the same order.
pub proof fn lemma_builder_deterministic(
    s1: Snapshot,
    s2: Snapshot,
    node_info: NodeInfo,
    channels: Seq<ChannelInfo>,
    audit: AuditInfo,
    nodes: Seq<NetworkNode>,
    hosted: Seq<(String, HostedChannel)>,
    fiat: Seq<(String, FiatChannel)>,
    now: u64,
    width: u16,
)
    requires
        snapshot_matches(s1, node_info, channels, audit, nodes, hosted, fiat, now, width),
        snapshot_matches(s2, node_info, channels, audit, nodes, hosted, fiat, now, width),
    ensures
        s1.node_info == s2.node_info,
        s1.channels@ == s2.channels@,
        s1.audit == s2.audit,
        s1.known_nodes@ == s2.known_nodes@,
        s1.hc_channels@ == s2.hc_channels@,
        s1.fc_channels@ == s2.fc_channels@,
        s1.built_at == s2.built_at,
        s1.screen_width == s2.screen_width,
        s1.stats_interval == s2.stats_interval,
        s1.active_chans == s2.active_chans,
        s1.pending_chans == s2.pending_chans,
        s1.sleeping_chans == s2.sleeping_chans,
        s1.active_sats == s2.active_sats,
        s1.pending_sats == s2.pending_sats,
        s1.sleeping_sats == s2.sleeping_sats,
        s1.relayed_count_month == s2.relayed_count_month,
        s1.relayed_count_day == s2.relayed_count_day,
        s1.relayed_month == s2.relayed_month,
        s1.relayed_day == s2.relayed_day,
        s1.fee_month == s2.fee_month,
        s1.fee_day == s2.fee_day,
        s1.relays_maximum_count == s2.relays_maximum_count,
        s1.relays_maximum_volume == s2.relays_maximum_volume,
        s1.relays_amounts_line@ == s2.relays_amounts_line@,
        s1.relays_volumes_line@ == s2.relays_volumes_line@,
        s1.channels_stats@ == s2.channels_stats@,
        s1.hosted_stats@ == s2.hosted_stats@,
        s1.fiat_stats@ == s2.fiat_stats@,
{
    assert(s1.relays_amounts_line@ =~= s2.relays_amounts_line@);
    assert(s1.relays_volumes_line@ =~= s2.relays_volumes_line@);
    assert(s1.channels_stats@ =~= s2.channels_stats@);
    assert(s1.hosted_stats@ =~= s2.hosted_stats@);
    assert(s1.fiat_stats@ =~= s2.fiat_stats@);
}

/// In a well-formed snapshot the three display groups' counts sum to at
/// most the number of channels, with equality exactly when no channel is
/// in the terminal `Closed` state.
pub proof fn lemma_snapshot_groups_partition(s: Snapshot)
    requires
        s.wf(),
    ensures
        s.active_chans + s.pending_chans + s.sleeping_chans <= s.channels@.len(),
        (forall|i: int| 0 <= i < s.channels@.len() ==> s.channels@[i].state != crate::channel::ChannelState::Closed)
            ==> s.active_chans + s.pending_chans + s.sleeping_chans == s.channels@.len(),
{
    crate::stats::lemma_display_groups_partition(s.channels@);
}

/// The resize path and a full rebuild from the same events and the same
/// new width produce the same histograms.
pub proof fn lemma_resize_matches_rebuild(
    resized: Snapshot,
    rebuilt: Snapshot,
    relayed: Seq<RelayedInfo>,
    now: u64,
    width: u16,
)
    requires
        lines_match(resized, relayed, now, width),
        lines_match(rebuilt, relayed, now, width),
    ensures
        resized.relays_maximum_count == rebuilt.relays_maximum_count,
        resized.relays_maximum_volume == rebuilt.relays_maximum_volume,
        resized.relays_amounts_line@ == rebuilt.relays_amounts_line@,
        resized.relays_volumes_line@ == rebuilt.relays_volumes_line@,
{
    assert(resized.relays_amounts_line@ =~= rebuilt.relays_amounts_line@);
    assert(resized.relays_volumes_line@ =~= rebuilt.relays_volumes_line@);
}

impl Snapshot {
    /// Volume relayed in the trailing day, recomputed from the embedded
    /// audit log; in a well-formed snapshot this is the stored field.
    pub fn get_relayed_day(&self) -> (r: u64)
        requires
            audit_ok(self.audit),
        ensures
            r == spec_relayed_volume(self.audit.relayed@, self.built_at, DAY_SECS),
            self.wf() ==> r == self.relayed_day,
    {
        get_relayed(&self.audit.relayed, self.built_at, DAY_SECS)
    }

    /// Volume relayed in the trailing month.
    pub fn get_relayed_month(&self) -> (r: u64)
        requires
            audit_ok(self.audit),
        ensures
            r == spec_relayed_volume(self.audit.relayed@, self.built_at, MONTH_SECS),
            self.wf() ==> r == self.relayed_month,
    {
        get_relayed(&self.audit.relayed, self.built_at, MONTH_SECS)
    }

    /// Number of payments relayed in the trailing day.
    pub fn get_relayed_count_day(&self) -> (r: u64)
        ensures
            r == spec_relayed_count(self.audit.relayed@, self.built_at, DAY_SECS),
            self.wf() ==> r == self.relayed_count_day,
    {
        get_relayed_count(&self.audit.relayed, self.built_at, DAY_SECS)
    }

    /// Number of payments relayed in the trailing month.
    pub fn get_relayed_count_month(&self) -> (r: u64)
        ensures
            r == spec_relayed_count(self.audit.relayed@, self.built_at, MONTH_SECS),
            self.wf() ==> r == self.relayed_count_month,
    {
        get_relayed_count(&self.audit.relayed, self.built_at, MONTH_SECS)
    }

    /// Fees earned in the trailing day.
    pub fn get_fee_day(&self) -> (r: u64)
        requires
            audit_ok(self.audit),
        ensures
            r == spec_relayed_fee(self.audit.relayed@, self.built_at, DAY_SECS),
            self.wf() ==> r == self.fee_day,
    {
        get_fee(&self.audit.relayed, self.built_at, DAY_SECS)
    }

    /// Fees earned in the trailing month.
    pub fn get_fee_month(&self) -> (r: u64)
        requires
            audit_ok(self.audit),
        ensures
            r == spec_relayed_fee(self.audit.relayed@, self.built_at, MONTH_SECS),
            self.wf() ==> r == self.fee_month,
    {
        get_fee(&self.audit.relayed, self.built_at, MONTH_SECS)
    }

    /// The node's total local volume: the three display groups' balance
    /// sums together.
    pub fn local_volume(&self) -> (r: u64)
        requires
            self.wf(),
        ensures
            r == self.active_sats + self.pending_sats + self.sleeping_sats,
    {
        proof {
            lemma_group_sats_partition(self.channels@);
        }
        self.active_sats + self.pending_sats + self.sleeping_sats
    }

    /// The annualized return rate, as the exact ratio
    /// `12 * 100 * fee_month / local_volume`.  When the local volume is 0
    /// the rate is undefined and `None` is returned: callers must render
    /// it as a non-finite value, never divide by zero.
    pub fn get_return_rate(&self) -> (r: Option<Ratio>)
        requires
            self.wf(),
        ensures
            self.active_sats + self.pending_sats + self.sleeping_sats == 0 <==> r is None,
            self.active_sats + self.pending_sats + self.sleeping_sats > 0 ==> r == Some(
                Ratio {
                    numer: (1200 * self.fee_month) as u128,
                    denom: (self.active_sats + self.pending_sats + self.sleeping_sats) as u64,
                },
            ),
    {
        let vol = self.local_volume();
        if vol == 0 {
            None
        } else {
            Some(Ratio { numer: 1200u128 * (self.fee_month as u128), denom: vol })
        }
    }

    /// The share of the trailing month's relayed volume in the local
    /// volume, as the exact ratio `100 * relayed_month / local_volume`;
    /// `None` when the local volume is 0.
    pub fn relayed_percent(&self) -> (r: Option<Ratio>)
        requires
            self.wf(),
        ensures
            self.active_sats + self.pending_sats + self.sleeping_sats == 0 <==> r is None,
            self.active_sats + self.pending_sats + self.sleeping_sats > 0 ==> r == Some(
                Ratio {
                    numer: (100 * self.relayed_month) as u128,
                    denom: (self.active_sats + self.pending_sats + self.sleeping_sats) as u64,
                },
            ),
    {
        let vol = self.local_volume();
        if vol == 0 {
            None
        } else {
            Some(Ratio { numer: 100u128 * (self.relayed_month as u128), denom: vol })
        }
    }
}

} // verus!
