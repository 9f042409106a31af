use vstd::prelude::*;

use crate::audit::{AuditInfo, RelayedInfo};
use crate::channel::{spec_local, spec_remote, ChannelInfo, ChannelState};
use crate::hosted::{FiatChannel, HostedChannel};
use crate::node::NetworkNode;
use crate::sums::{
    count_by, lemma_count_by_bounds, lemma_count_by_take_step, lemma_sum_by_le,
    lemma_sum_by_take_le, lemma_sum_by_take_step, sum_by,
};

verus! {

/// The trailing window used for daily figures and per-channel statistics.
pub const DAY_SECS: u64 = 24 * 3600;

/// The trailing window used for monthly figures.
pub const MONTH_SECS: u64 = 30 * 24 * 3600;

// ---------------------------------------------------------------------------
// Display-group classification of standard channels.
// ---------------------------------------------------------------------------

/// The channel belongs to the "active" display group.
pub open spec fn spec_is_active(c: ChannelInfo) -> bool {
    c.state == ChannelState::Normal
}

/// The channel belongs to the "pending" display group.
pub open spec fn spec_is_pending(c: ChannelInfo) -> bool {
    c.state == ChannelState::Closing || c.state == ChannelState::Opening
        || c.state == ChannelState::Syncing || c.state == ChannelState::WaitForFundingConfirmed
}

/// The channel belongs to the "sleeping" display group.
pub open spec fn spec_is_sleeping(c: ChannelInfo) -> bool {
    c.state == ChannelState::Offline
}

pub open spec fn active_pred() -> spec_fn(ChannelInfo) -> bool {
    |c: ChannelInfo| spec_is_active(c)
}

pub open spec fn pending_pred() -> spec_fn(ChannelInfo) -> bool {
    |c: ChannelInfo| spec_is_pending(c)
}

pub open spec fn sleeping_pred() -> spec_fn(ChannelInfo) -> bool {
    |c: ChannelInfo| spec_is_sleeping(c)
}

pub open spec fn count_active(s: Seq<ChannelInfo>) -> int {
    count_by(s, active_pred())
}

pub open spec fn count_pending(s: Seq<ChannelInfo>) -> int {
    count_by(s, pending_pred())
}

pub open spec fn count_sleeping(s: Seq<ChannelInfo>) -> int {
    count_by(s, sleeping_pred())
}

/// Local balance of a channel, as a summable weight.
pub open spec fn local_weight() -> spec_fn(ChannelInfo) -> int {
    |c: ChannelInfo| spec_local(c)
}

/// Sum of the local balances of all channels, whatever their state.
pub open spec fn spec_total_local(s: Seq<ChannelInfo>) -> int {
    sum_by(s, local_weight())
}

pub open spec fn active_sats_weight() -> spec_fn(ChannelInfo) -> int {
    |c: ChannelInfo| if spec_is_active(c) {
        spec_local(c)
    } else {
        0int
    }
}

pub open spec fn pending_sats_weight() -> spec_fn(ChannelInfo) -> int {
    |c: ChannelInfo| if spec_is_pending(c) {
        spec_local(c)
    } else {
        0int
    }
}

pub open spec fn sleeping_sats_weight() -> spec_fn(ChannelInfo) -> int {
    |c: ChannelInfo| if spec_is_sleeping(c) {
        spec_local(c)
    } else {
        0int
    }
}

/// Sum of local balances over the "active" display group.
pub open spec fn spec_active_sats(s: Seq<ChannelInfo>) -> int {
    sum_by(s, active_sats_weight())
}

/// Sum of local balances over the "pending" display group.
pub open spec fn spec_pending_sats(s: Seq<ChannelInfo>) -> int {
    sum_by(s, pending_sats_weight())
}

/// Sum of local balances over the "sleeping" display group.
pub open spec fn spec_sleeping_sats(s: Seq<ChannelInfo>) -> int {
    sum_by(s, sleeping_sats_weight())
}

/// The three display groups are disjoint and omit only `Closed` channels:
/// their counts sum to at most the number of channels, with equality
/// exactly when no channel is in the terminal `Closed` state.
pub proof fn lemma_display_groups_partition(channels: Seq<ChannelInfo>)
    ensures
        count_active(channels) + count_pending(channels) + count_sleeping(channels)
            <= channels.len(),
        (forall|i: int| 0 <= i < channels.len() ==> channels[i].state != ChannelState::Closed)
            ==> count_active(channels) + count_pending(channels) + count_sleeping(channels)
            == channels.len(),
    decreases channels.len(),
{
    if channels.len() > 0 {
        let prefix = channels.drop_last();
        assert(forall|i: int| 0 <= i < prefix.len() ==> prefix[i] == channels[i]);
        lemma_display_groups_partition(prefix);
    }
}

/// The per-group balance sums never exceed the total of all local balances.
pub proof fn lemma_group_sats_partition(channels: Seq<ChannelInfo>)
    ensures
        spec_active_sats(channels) + spec_pending_sats(channels) + spec_sleeping_sats(channels)
            <= spec_total_local(channels),
        spec_active_sats(channels) >= 0,
        spec_pending_sats(channels) >= 0,
        spec_sleeping_sats(channels) >= 0,
    decreases channels.len(),
{
    if channels.len() > 0 {
        let prefix = channels.drop_last();
        lemma_group_sats_partition(prefix);
    }
}

/// Number of channels in the "active" display group.
pub fn get_active_chans(channels: &Vec<ChannelInfo>) -> (r: usize)
    ensures
        r == count_active(channels@),
{
    let mut cnt: usize = 0;
    let mut k: usize = 0;
    while k < channels.len()
        invariant
            0 <= k <= channels@.len(),
            cnt == count_active(channels@.take(k as int)),
        decreases channels@.len() - k,
    {
        proof {
            lemma_count_by_take_step(channels@, active_pred(), k as int);
            lemma_count_by_bounds(channels@.take(k as int), active_pred());
        }
        if channels[k].state.is_normal() {
            cnt = cnt + 1;
        }
        k = k + 1;
    }
    proof {
        assert(channels@.take(channels@.len() as int) =~= channels@);
    }
    cnt
}

/// Number of channels in the "pending" display group.
pub fn get_pending_chans(channels: &Vec<ChannelInfo>) -> (r: usize)
    ensures
        r == count_pending(channels@),
{
    let mut cnt: usize = 0;
    let mut k: usize = 0;
    while k < channels.len()
        invariant
            0 <= k <= channels@.len(),
            cnt == count_pending(channels@.take(k as int)),
        decreases channels@.len() - k,
    {
        proof {
            lemma_count_by_take_step(channels@, pending_pred(), k as int);
            lemma_count_by_bounds(channels@.take(k as int), pending_pred());
        }
        if channels[k].state.is_pending() {
            cnt = cnt + 1;
        }
        k = k + 1;
    }
    proof {
        assert(channels@.take(channels@.len() as int) =~= channels@);
    }
    cnt
}

/// Number of channels in the "sleeping" display group.
pub fn get_sleeping_chans(channels: &Vec<ChannelInfo>) -> (r: usize)
    ensures
        r == count_sleeping(channels@),
{
    let mut cnt: usize = 0;
    let mut k: usize = 0;
    while k < channels.len()
        invariant
            0 <= k <= channels@.len(),
            cnt == count_sleeping(channels@.take(k as int)),
        decreases channels@.len() - k,
    {
        proof {
            lemma_count_by_take_step(channels@, sleeping_pred(), k as int);
            lemma_count_by_bounds(channels@.take(k as int), sleeping_pred());
        }
        if channels[k].state.is_sleeping() {
            cnt = cnt + 1;
        }
        k = k + 1;
    }
    proof {
        assert(channels@.take(channels@.len() as int) =~= channels@);
    }
    cnt
}

/// Sum of local balances over one display group (1 active, 2 pending,
/// 3 sleeping): the helper behind the three public group-sum functions.
fn group_sats(channels: &Vec<ChannelInfo>, group: u8) -> (r: u64)
    requires
        spec_total_local(channels@) <= u64::MAX,
        1 <= group <= 3,
    ensures
        group == 1 ==> r == spec_active_sats(channels@),
        group == 2 ==> r == spec_pending_sats(channels@),
        group == 3 ==> r == spec_sleeping_sats(channels@),
{
    let ghost w: spec_fn(ChannelInfo) -> int = if group == 1 {
        active_sats_weight()
    } else if group == 2 {
        pending_sats_weight()
    } else {
        sleeping_sats_weight()
    };
    proof {
        assert(forall|j: int| 0 <= j < channels@.len() ==> #[trigger] w(channels@[j]) >= 0);
        assert(forall|j: int|
            0 <= j < channels@.len() ==> #[trigger] w(channels@[j]) <= local_weight()(
                channels@[j],
            ));
    }
    let mut acc: u64 = 0;
    let mut k: usize = 0;
    while k < channels.len()
        invariant
            0 <= k <= channels@.len(),
            spec_total_local(channels@) <= u64::MAX,
            acc == sum_by(channels@.take(k as int), w),
            forall|j: int| 0 <= j < channels@.len() ==> #[trigger] w(channels@[j]) >= 0,
            forall|j: int|
                0 <= j < channels@.len() ==> #[trigger] w(channels@[j]) <= local_weight()(
                    channels@[j],
                ),
            group == 1 ==> w == active_sats_weight(),
            group == 2 ==> w == pending_sats_weight(),
            group == 3 ==> w == sleeping_sats_weight(),
            1 <= group <= 3,
        decreases channels@.len() - k,
    {
        let c = &channels[k];
        proof {
            lemma_sum_by_take_step(channels@, w, k as int);
            lemma_sum_by_take_le(channels@, w, k as int + 1);
            lemma_sum_by_le(channels@, w, local_weight());
        }
        let selected: bool = if group == 1 {
            c.state.is_normal()
        } else if group == 2 {
            c.state.is_pending()
        } else {
            c.state.is_sleeping()
        };
        if selected {
            match &c.data {
                Some(d) => {
                    acc = acc + d.commitments.local_commit.commit_spec.to_local;
                },
                None => {},
            }
        }
        k = k + 1;
    }
    proof {
        assert(channels@.take(channels@.len() as int) =~= channels@);
    }
    acc
}

/// Sum of local balances of channels in the "active" display group.
pub fn get_active_sats(channels: &Vec<ChannelInfo>) -> (r: u64)
    requires
        spec_total_local(channels@) <= u64::MAX,
    ensures
        r == spec_active_sats(channels@),
{
    group_sats(channels, 1)
}

/// Sum of local balances of channels in the "pending" display group.
pub fn get_pending_sats(channels: &Vec<ChannelInfo>) -> (r: u64)
    requires
        spec_total_local(channels@) <= u64::MAX,
    ensures
        r == spec_pending_sats(channels@),
{
    group_sats(channels, 2)
}

/// Sum of local balances of channels in the "sleeping" display group.
pub fn get_sleeping_sats(channels: &Vec<ChannelInfo>) -> (r: u64)
    requires
        spec_total_local(channels@) <= u64::MAX,
    ensures
        r == spec_sleeping_sats(channels@),
{
    group_sats(channels, 3)
}

// ---------------------------------------------------------------------------
// Display-group classification of fiat channels.
// ---------------------------------------------------------------------------

pub open spec fn fiat_active_pred() -> spec_fn((String, FiatChannel)) -> bool {
    |p: (String, FiatChannel)| p.1.state == ChannelState::Normal
}

pub open spec fn fiat_suspended_pred() -> spec_fn((String, FiatChannel)) -> bool {
    |p: (String, FiatChannel)|
        p.1.state == ChannelState::Closing || p.1.state == ChannelState::Opening
            || p.1.state == ChannelState::Syncing || p.1.state
            == ChannelState::WaitForFundingConfirmed
}

pub open spec fn fiat_offline_pred() -> spec_fn((String, FiatChannel)) -> bool {
    |p: (String, FiatChannel)| p.1.state == ChannelState::Offline
}

/// Number of fiat channels whose state is live.
pub fn get_active_fiat_chans(fiat: &Vec<(String, FiatChannel)>) -> (r: usize)
    ensures
        r == count_by(fiat@, fiat_active_pred()),
{
    let mut cnt: usize = 0;
    let mut k: usize = 0;
    while k < fiat.len()
        invariant
            0 <= k <= fiat@.len(),
            cnt == count_by(fiat@.take(k as int), fiat_active_pred()),
        decreases fiat@.len() - k,
    {
        proof {
            lemma_count_by_take_step(fiat@, fiat_active_pred(), k as int);
            lemma_count_by_bounds(fiat@.take(k as int), fiat_active_pred());
        }
        if fiat[k].1.state.is_normal() {
            cnt = cnt + 1;
        }
        k = k + 1;
    }
    proof {
        assert(fiat@.take(fiat@.len() as int) =~= fiat@);
    }
    cnt
}

/// Number of fiat channels in a transitional state.
pub fn get_suspended_fiat_chans(fiat: &Vec<(String, FiatChannel)>) -> (r: usize)
    ensures
        r == count_by(fiat@, fiat_suspended_pred()),
{
    let mut cnt: usize = 0;
    let mut k: usize = 0;
    while k < fiat.len()
        invariant
            0 <= k <= fiat@.len(),
            cnt == count_by(fiat@.take(k as int), fiat_suspended_pred()),
        decreases fiat@.len() - k,
    {
        proof {
            lemma_count_by_take_step(fiat@, fiat_suspended_pred(), k as int);
            lemma_count_by_bounds(fiat@.take(k as int), fiat_suspended_pred());
        }
        if fiat[k].1.state.is_pending() {
            cnt = cnt + 1;
        }
        k = k + 1;
    }
    proof {
        assert(fiat@.take(fiat@.len() as int) =~= fiat@);
    }
    cnt
}

/// Number of fiat channels whose counterpart is offline.
pub fn get_offline_fiat_chans(fiat: &Vec<(String, FiatChannel)>) -> (r: usize)
    ensures
        r == count_by(fiat@, fiat_offline_pred()),
{
    let mut cnt: usize = 0;
    let mut k: usize = 0;
    while k < fiat.len()
        invariant
            0 <= k <= fiat@.len(),
            cnt == count_by(fiat@.take(k as int), fiat_offline_pred()),
        decreases fiat@.len() - k,
    {
        proof {
            lemma_count_by_take_step(fiat@, fiat_offline_pred(), k as int);
            lemma_count_by_bounds(fiat@.take(k as int), fiat_offline_pred());
        }
        if fiat[k].1.state.is_sleeping() {
            cnt = cnt + 1;
        }
        k = k + 1;
    }
    proof {
        assert(fiat@.take(fiat@.len() as int) =~= fiat@);
    }
    cnt
}

// ---------------------------------------------------------------------------
// Windowed relay aggregation.
// ---------------------------------------------------------------------------

/// The event falls inside the trailing window: events strictly newer than
/// `now - interval` are retained (one dated after `now` is retained too).
pub open spec fn rel_in_window(e: RelayedInfo, now: u64, interval: u64) -> bool {
    e.timestamp.unix > now - interval
}

/// No relay event claims to have forwarded more than it received; the fee
/// `amount_in - amount_out` is then well defined for every event.
pub open spec fn relays_ok(s: Seq<RelayedInfo>) -> bool {
    forall|i: int| 0 <= i < s.len() ==> #[trigger] s[i].amount_out <= s[i].amount_in
}

pub open spec fn relay_volume_total_weight() -> spec_fn(RelayedInfo) -> int {
    |e: RelayedInfo| e.amount_in as int
}

/// Sum of amounts received over all relay events, whatever their age.
/// Bounding this bounds every windowed or per-channel volume and fee sum.
pub open spec fn spec_total_relay_volume(s: Seq<RelayedInfo>) -> int {
    sum_by(s, relay_volume_total_weight())
}

/// The audit log is well formed for aggregation: fees are nonnegative and
/// the total relayed volume fits the machine word.
pub open spec fn audit_ok(a: AuditInfo) -> bool {
    &&& relays_ok(a.relayed@)
    &&& spec_total_relay_volume(a.relayed@) <= u64::MAX
}

pub open spec fn window_pred(now: u64, interval: u64) -> spec_fn(RelayedInfo) -> bool {
    |e: RelayedInfo| rel_in_window(e, now, interval)
}

pub open spec fn vol_weight(now: u64, interval: u64) -> spec_fn(RelayedInfo) -> int {
    |e: RelayedInfo| if rel_in_window(e, now, interval) {
        e.amount_in as int
    } else {
        0int
    }
}

pub open spec fn fee_weight(now: u64, interval: u64) -> spec_fn(RelayedInfo) -> int {
    |e: RelayedInfo| if rel_in_window(e, now, interval) {
        e.amount_in - e.amount_out
    } else {
        0int
    }
}

/// Number of relay events inside the trailing window.
pub open spec fn spec_relayed_count(s: Seq<RelayedInfo>, now: u64, interval: u64) -> int {
    count_by(s, window_pred(now, interval))
}

/// Sum of amounts received over relay events inside the trailing window.
pub open spec fn spec_relayed_volume(s: Seq<RelayedInfo>, now: u64, interval: u64) -> int {
    sum_by(s, vol_weight(now, interval))
}

/// Sum of fees earned over relay events inside the trailing window.
pub open spec fn spec_relayed_fee(s: Seq<RelayedInfo>, now: u64, interval: u64) -> int {
    sum_by(s, fee_weight(now, interval))
}

/// Is the event's timestamp strictly newer than `now - interval`?
/// Computed in wide arithmetic so an interval reaching past the epoch
/// behaves like the unbounded mathematical window.
fn in_window(ts: u64, now: u64, interval: u64) -> (r: bool)
    ensures
        r == (ts > now - interval),
{
    (ts as i128) > (now as i128) - (interval as i128)
}

/// Total volume relayed within the trailing window `(now - interval, now]`.
pub fn get_relayed(relayed: &Vec<RelayedInfo>, now: u64, interval: u64) -> (r: u64)
    requires
        spec_total_relay_volume(relayed@) <= u64::MAX,
    ensures
        r == spec_relayed_volume(relayed@, now, interval),
{
    proof {
        assert(forall|j: int|
            0 <= j < relayed@.len() ==> #[trigger] vol_weight(now, interval)(relayed@[j]) >= 0);
        assert(forall|j: int|
            0 <= j < relayed@.len() ==> #[trigger] vol_weight(now, interval)(relayed@[j])
                <= relay_volume_total_weight()(relayed@[j]));
    }
    let mut acc: u64 = 0;
    let mut k: usize = 0;
    while k < relayed.len()
        invariant
            0 <= k <= relayed@.len(),
            spec_total_relay_volume(relayed@) <= u64::MAX,
            acc == spec_relayed_volume(relayed@.take(k as int), now, interval),
            forall|j: int|
                0 <= j < relayed@.len() ==> #[trigger] vol_weight(now, interval)(relayed@[j])
                    >= 0,
            forall|j: int|
                0 <= j < relayed@.len() ==> #[trigger] vol_weight(now, interval)(relayed@[j])
                    <= relay_volume_total_weight()(relayed@[j]),
        decreases relayed@.len() - k,
    {
        let e = &relayed[k];
        proof {
            lemma_sum_by_take_step(relayed@, vol_weight(now, interval), k as int);
            lemma_sum_by_take_le(relayed@, vol_weight(now, interval), k as int + 1);
            lemma_sum_by_le(relayed@, vol_weight(now, interval), relay_volume_total_weight());
        }
        if in_window(e.timestamp.unix, now, interval) {
            acc = acc + e.amount_in;
        }
        k = k + 1;
    }
    proof {
        assert(relayed@.take(relayed@.len() as int) =~= relayed@);
    }
    acc
}

/// Number of payments relayed within the trailing window.
pub fn get_relayed_count(relayed: &Vec<RelayedInfo>, now: u64, interval: u64) -> (r: u64)
    ensures
        r == spec_relayed_count(relayed@, now, interval),
{
    let mut cnt: u64 = 0;
    let mut k: usize = 0;
    while k < relayed.len()
        invariant
            0 <= k <= relayed@.len(),
            cnt == spec_relayed_count(relayed@.take(k as int), now, interval),
        decreases relayed@.len() - k,
    {
        let e = &relayed[k];
        proof {
            lemma_count_by_take_step(relayed@, window_pred(now, interval), k as int);
            lemma_count_by_bounds(relayed@.take(k as int), window_pred(now, interval));
        }
        if in_window(e.timestamp.unix, now, interval) {
            cnt = cnt + 1;
        }
        k = k + 1;
    }
    proof {
        assert(relayed@.take(relayed@.len() as int) =~= relayed@);
    }
    cnt
}

/// Total fee earned from payments relayed within the trailing window.
pub fn get_fee(relayed: &Vec<RelayedInfo>, now: u64, interval: u64) -> (r: u64)
    requires
        relays_ok(relayed@),
        spec_total_relay_volume(relayed@) <= u64::MAX,
    ensures
        r == spec_relayed_fee(relayed@, now, interval),
{
    proof {
        assert(forall|j: int|
            0 <= j < relayed@.len() ==> #[trigger] fee_weight(now, interval)(relayed@[j]) >= 0);
        assert(forall|j: int|
            0 <= j < relayed@.len() ==> #[trigger] fee_weight(now, interval)(relayed@[j])
                <= relay_volume_total_weight()(relayed@[j]));
    }
    let mut acc: u64 = 0;
    let mut k: usize = 0;
    while k < relayed.len()
        invariant
            0 <= k <= relayed@.len(),
            relays_ok(relayed@),
            spec_total_relay_volume(relayed@) <= u64::MAX,
            acc == spec_relayed_fee(relayed@.take(k as int), now, interval),
            forall|j: int|
                0 <= j < relayed@.len() ==> #[trigger] fee_weight(now, interval)(relayed@[j])
                    >= 0,
            forall|j: int|
                0 <= j < relayed@.len() ==> #[trigger] fee_weight(now, interval)(relayed@[j])
                    <= relay_volume_total_weight()(relayed@[j]),
        decreases relayed@.len() - k,
    {
        let e = &relayed[k];
        proof {
            lemma_sum_by_take_step(relayed@, fee_weight(now, interval), k as int);
            lemma_sum_by_take_le(relayed@, fee_weight(now, interval), k as int + 1);
            lemma_sum_by_le(relayed@, fee_weight(now, interval), relay_volume_total_weight());
        }
        if in_window(e.timestamp.unix, now, interval) {
            acc = acc + (e.amount_in - e.amount_out);
        }
        k = k + 1;
    }
    proof {
        assert(relayed@.take(relayed@.len() as int) =~= relayed@);
    }
    acc
}

// ---------------------------------------------------------------------------
// Per-channel statistics.
// ---------------------------------------------------------------------------

/// The kind of a channel, without its kind-specific data.
#[derive(Debug, Clone, Copy, PartialEq, Eq, Hash, Structural)]
pub enum ChannelType {
    Normal,
    Hosted,
    HostedFiat,
}

/// Kind-specific extra data of a channel statistic.
#[derive(Debug, Clone, PartialEq, Eq)]
pub enum ChannelExt {
    Normal,
    Hosted,
    HostedFiat(FiatChannelData),
}

impl ChannelExt {
    pub open spec fn spec_channel_type(self) -> ChannelType {
        match self {
            ChannelExt::Normal => ChannelType::Normal,
            ChannelExt::Hosted => ChannelType::Hosted,
            ChannelExt::HostedFiat(_) => ChannelType::HostedFiat,
        }
    }

    /// The kind tag of this extra data.
    pub fn channel_type(&self) -> (r: ChannelType)
        ensures
            r == self.spec_channel_type(),
    {
        match self {
            ChannelExt::Normal => ChannelType::Normal,
            ChannelExt::Hosted => ChannelType::Hosted,
            ChannelExt::HostedFiat(_) => ChannelType::HostedFiat,
        }
    }
}

/// The peg data of a fiat channel.  The fiat amount is the quotient
/// `balance_msat / rate`; the display layer forms it in floating point.
#[derive(Debug, Clone, Copy, PartialEq, Eq, Structural)]
pub struct FiatChannelData {
    pub rate: u64,
    pub balance_msat: u64,
}

impl FiatChannelData {
    /// The reverse exchange rate, `100_000_000_000 / rate`, as an exact
    /// ratio; `None` when the rate is 0 and the quotient is not finite.
    pub fn reverse_rate(&self) -> (r: Option<crate::snapshot::Ratio>)
        ensures
            self.rate == 0 <==> r is None,
            self.rate > 0 ==> r == Some(
                crate::snapshot::Ratio {
                    numer: 100_000_000_000 as u128,
                    denom: self.rate,
                },
            ),
    {
        if self.rate == 0 {
            None
        } else {
            Some(crate::snapshot::Ratio { numer: 100_000_000_000u128, denom: self.rate })
        }
    }
}

/// Fully derived display statistics of one channel, of whatever kind.
#[derive(Debug, Clone, PartialEq, Eq)]
pub struct ChannelStats {
    pub chan_state: ChannelState,
    pub node_id: String,
    pub chan_id: String,
    pub alias: String,
    pub local: u64,
    pub remote: u64,
    pub relays_amount: u64,
    pub relays_volume: u64,
    pub relays_fees: u64,
    pub info_id: usize,
    pub public: bool,
    pub channel_ext: ChannelExt,
}

impl ChannelStats {
    /// Total volume of the channel: local plus remote balance.
    pub fn volume(&self) -> (r: u64)
        requires
            self.local + self.remote <= u64::MAX,
        ensures
            r == self.local + self.remote,
    {
        self.local + self.remote
    }

    /// Is this the statistic of a standard channel?
    pub fn is_normal_channel(&self) -> (r: bool)
        ensures
            r == (self.channel_ext.spec_channel_type() == ChannelType::Normal),
    {
        self.channel_ext.channel_type() == ChannelType::Normal
    }

    pub open spec fn spec_rate(self) -> u64 {
        match self.channel_ext {
            ChannelExt::HostedFiat(data) => data.rate,
            _ => 0,
        }
    }

    /// The exchange rate of a fiat channel, 0 for any other kind.
    pub fn rate(&self) -> (r: u64)
        ensures
            r == self.spec_rate(),
    {
        match &self.channel_ext {
            ChannelExt::HostedFiat(data) => data.rate,
            _ => 0,
        }
    }

    /// The pegged fiat balance of a fiat channel, as the exact ratio
    /// `balance_msat / rate`; an exact zero for the other kinds (they hold
    /// no fiat), and `None` for a fiat channel whose rate is 0, whose
    /// balance is undefined rather than a division by zero.
    pub fn fiat_balance(&self) -> (r: Option<crate::snapshot::Ratio>)
        ensures
            match self.channel_ext {
                ChannelExt::HostedFiat(d) => (d.rate == 0 <==> r is None) && (d.rate > 0 ==> r
                    == Some(crate::snapshot::Ratio { numer: d.balance_msat as u128, denom: d.rate })),
                _ => r == Some(crate::snapshot::Ratio { numer: 0, denom: 1 }),
            },
    {
        match &self.channel_ext {
            ChannelExt::HostedFiat(data) => {
                if data.rate == 0 {
                    None
                } else {
                    Some(
                        crate::snapshot::Ratio {
                            numer: data.balance_msat as u128,
                            denom: data.rate,
                        },
                    )
                }
            },
            _ => Some(crate::snapshot::Ratio { numer: 0, denom: 1 }),
        }
    }

    /// The reverse exchange rate of a fiat channel; an exact zero for the
    /// other kinds, `None` for a fiat channel whose rate is 0.
    pub fn reverse_rate(&self) -> (r: Option<crate::snapshot::Ratio>)
        ensures
            match self.channel_ext {
                ChannelExt::HostedFiat(d) => (d.rate == 0 <==> r is None) && (d.rate > 0 ==> r
                    == Some(
                    crate::snapshot::Ratio { numer: 100_000_000_000 as u128, denom: d.rate },
                )),
                _ => r == Some(crate::snapshot::Ratio { numer: 0, denom: 1 }),
            },
    {
        match &self.channel_ext {
            ChannelExt::HostedFiat(data) => data.reverse_rate(),
            _ => Some(crate::snapshot::Ratio { numer: 0, denom: 1 }),
        }
    }
}

/// The alias under which a counterpart is displayed: the alias of the first
/// known node with a matching identifier, or the raw identifier itself when
/// the counterpart is unknown.  This lookup never fails.
pub open spec fn spec_alias(nodes: Seq<NetworkNode>, id: String) -> String
    decreases nodes.len(),
{
    if nodes.len() == 0 {
        id
    } else if nodes[0].node_id@ == id@ {
        nodes[0].alias
    } else {
        spec_alias(nodes.drop_first(), id)
    }
}

/// Resolve a counterpart identifier to its display alias, falling back to
/// the identifier itself.
pub fn resolve_alias(nodes: &Vec<NetworkNode>, id: &String) -> (r: String)
    ensures
        r == spec_alias(nodes@, *id),
{
    let mut k: usize = 0;
    proof {
        assert(nodes@.skip(0) =~= nodes@);
    }
    while k < nodes.len()
        invariant
            0 <= k <= nodes@.len(),
            spec_alias(nodes@, *id) == spec_alias(nodes@.skip(k as int), *id),
        decreases nodes@.len() - k,
    {
        proof {
            assert(nodes@.skip(k as int)[0] == nodes@[k as int]);
            assert(nodes@.skip(k as int).drop_first() =~= nodes@.skip(k as int + 1));
        }
        if nodes[k].node_id == *id {
            return nodes[k].alias.clone();
        }
        k = k + 1;
    }
    proof {
        assert(nodes@.skip(nodes@.len() as int) =~= Seq::<NetworkNode>::empty());
    }
    id.clone()
}

pub open spec fn rel_matches_chan(e: RelayedInfo, chan_id: Seq<char>) -> bool {
    e.from_channel_id@ == chan_id || e.to_channel_id@ == chan_id
}

pub open spec fn chan_count_pred(chan_id: Seq<char>, now: u64, interval: u64) -> spec_fn(
    RelayedInfo,
) -> bool {
    |e: RelayedInfo| rel_matches_chan(e, chan_id) && rel_in_window(e, now, interval)
}

pub open spec fn chan_vol_weight(chan_id: Seq<char>, now: u64, interval: u64) -> spec_fn(
    RelayedInfo,
) -> int {
    |e: RelayedInfo| if rel_matches_chan(e, chan_id) && rel_in_window(e, now, interval) {
        e.amount_in as int
    } else {
        0int
    }
}

pub open spec fn chan_fee_weight(chan_id: Seq<char>, now: u64, interval: u64) -> spec_fn(
    RelayedInfo,
) -> int {
    |e: RelayedInfo| if rel_matches_chan(e, chan_id) && rel_in_window(e, now, interval) {
        e.amount_in - e.amount_out
    } else {
        0int
    }
}

/// Number of windowed relay events that entered or left this channel.
pub open spec fn spec_chan_count(
    s: Seq<RelayedInfo>,
    chan_id: Seq<char>,
    now: u64,
    interval: u64,
) -> int {
    count_by(s, chan_count_pred(chan_id, now, interval))
}

/// Volume of windowed relay events that entered or left this channel.
pub open spec fn spec_chan_volume(
    s: Seq<RelayedInfo>,
    chan_id: Seq<char>,
    now: u64,
    interval: u64,
) -> int {
    sum_by(s, chan_vol_weight(chan_id, now, interval))
}

/// Fees earned from windowed relay events that entered or left this channel.
pub open spec fn spec_chan_fee(
    s: Seq<RelayedInfo>,
    chan_id: Seq<char>,
    now: u64,
    interval: u64,
) -> int {
    sum_by(s, chan_fee_weight(chan_id, now, interval))
}

/// Count, volume and fee total of the relay events attributed to one
/// channel within the trailing window.  A channel with no matching events
/// reports three zeros.
pub fn chan_relay_totals(
    relayed: &Vec<RelayedInfo>,
    chan_id: &String,
    now: u64,
    interval: u64,
) -> (r: (u64, u64, u64))
    requires
        relays_ok(relayed@),
        spec_total_relay_volume(relayed@) <= u64::MAX,
    ensures
        r.0 == spec_chan_count(relayed@, chan_id@, now, interval),
        r.1 == spec_chan_volume(relayed@, chan_id@, now, interval),
        r.2 == spec_chan_fee(relayed@, chan_id@, now, interval),
{
    let ghost cid: Seq<char> = chan_id@;
    proof {
        assert(forall|j: int|
            0 <= j < relayed@.len() ==> #[trigger] chan_vol_weight(cid, now, interval)(
                relayed@[j],
            ) >= 0);
        assert(forall|j: int|
            0 <= j < relayed@.len() ==> #[trigger] chan_vol_weight(cid, now, interval)(
                relayed@[j],
            ) <= relay_volume_total_weight()(relayed@[j]));
        assert(forall|j: int|
            0 <= j < relayed@.len() ==> #[trigger] chan_fee_weight(cid, now, interval)(
                relayed@[j],
            ) >= 0);
        assert(forall|j: int|
            0 <= j < relayed@.len() ==> #[trigger] chan_fee_weight(cid, now, interval)(
                relayed@[j],
            ) <= relay_volume_total_weight()(relayed@[j]));
    }
    let mut cnt: u64 = 0;
    let mut vol: u64 = 0;
    let mut fees: u64 = 0;
    let mut k: usize = 0;
    while k < relayed.len()
        invariant
            0 <= k <= relayed@.len(),
            cid == chan_id@,
            relays_ok(relayed@),
            spec_total_relay_volume(relayed@) <= u64::MAX,
            cnt == spec_chan_count(relayed@.take(k as int), cid, now, interval),
            vol == spec_chan_volume(relayed@.take(k as int), cid, now, interval),
            fees == spec_chan_fee(relayed@.take(k as int), cid, now, interval),
            forall|j: int|
                0 <= j < relayed@.len() ==> #[trigger] chan_vol_weight(cid, now, interval)(
                    relayed@[j],
                ) >= 0,
            forall|j: int|
                0 <= j < relayed@.len() ==> #[trigger] chan_vol_weight(cid, now, interval)(
                    relayed@[j],
                ) <= relay_volume_total_weight()(relayed@[j]),
            forall|j: int|
                0 <= j < relayed@.len() ==> #[trigger] chan_fee_weight(cid, now, interval)(
                    relayed@[j],
                ) >= 0,
            forall|j: int|
                0 <= j < relayed@.len() ==> #[trigger] chan_fee_weight(cid, now, interval)(
                    relayed@[j],
                ) <= relay_volume_total_weight()(relayed@[j]),
        decreases relayed@.len() - k,
    {
        let e = &relayed[k];
        proof {
            lemma_count_by_take_step(relayed@, chan_count_pred(cid, now, interval), k as int);
            lemma_count_by_bounds(relayed@.take(k as int), chan_count_pred(cid, now, interval));
            lemma_sum_by_take_step(relayed@, chan_vol_weight(cid, now, interval), k as int);
            lemma_sum_by_take_le(relayed@, chan_vol_weight(cid, now, interval), k as int + 1);
            lemma_sum_by_le(
                relayed@,
                chan_vol_weight(cid, now, interval),
                relay_volume_total_weight(),
            );
            lemma_sum_by_take_step(relayed@, chan_fee_weight(cid, now, interval), k as int);
            lemma_sum_by_take_le(relayed@, chan_fee_weight(cid, now, interval), k as int + 1);
            lemma_sum_by_le(
                relayed@,
                chan_fee_weight(cid, now, interval),
                relay_volume_total_weight(),
            );
        }
        let matches_chan = e.from_channel_id == *chan_id || e.to_channel_id == *chan_id;
        if matches_chan && in_window(e.timestamp.unix, now, interval) {
            cnt = cnt + 1;
            vol = vol + e.amount_in;
            fees = fees + (e.amount_in - e.amount_out);
        }
        k = k + 1;
    }
    proof {
        assert(relayed@.take(relayed@.len() as int) =~= relayed@);
    }
    (cnt, vol, fees)
}

/// The statistic derived for a standard channel: balances from its payload
/// (0 when absent), relay figures filtered to this channel inside the
/// window, alias resolved through the known-node directory.
pub open spec fn spec_channel_stats(
    i: int,
    interval: u64,
    chan: ChannelInfo,
    relayed: Seq<RelayedInfo>,
    nodes: Seq<NetworkNode>,
    now: u64,
) -> ChannelStats {
    ChannelStats {
        chan_state: chan.state,
        node_id: chan.node_id,
        chan_id: chan.channel_id,
        alias: spec_alias(nodes, chan.node_id),
        local: spec_local(chan) as u64,
        remote: spec_remote(chan) as u64,
        relays_amount: spec_chan_count(relayed, chan.channel_id@, now, interval) as u64,
        relays_volume: spec_chan_volume(relayed, chan.channel_id@, now, interval) as u64,
        relays_fees: spec_chan_fee(relayed, chan.channel_id@, now, interval) as u64,
        info_id: i as usize,
        public: match chan.data {
            Some(d) => match d.commitments.channel_flags.announce_channel {
                Some(b) => b,
                None => false,
            },
            None => false,
        },
        channel_ext: if chan.data is None {
            ChannelExt::Hosted
        } else {
            ChannelExt::Normal
        },
    }
}

/// Build the display statistic of one standard channel.
pub fn get_channel_stats(
    i: usize,
    interval: u64,
    chan: &ChannelInfo,
    relayed: &Vec<RelayedInfo>,
    nodes: &Vec<NetworkNode>,
    now: u64,
) -> (r: ChannelStats)
    requires
        relays_ok(relayed@),
        spec_total_relay_volume(relayed@) <= u64::MAX,
    ensures
        r == spec_channel_stats(i as int, interval, *chan, relayed@, nodes@, now),
{
    let totals = chan_relay_totals(relayed, &chan.channel_id, now, interval);
    let (local, remote) = match &chan.data {
        Some(d) => {
            let s = &d.commitments.local_commit.commit_spec;
            (s.to_local, s.to_remote)
        },
        None => (0, 0),
    };
    let public = match &chan.data {
        Some(d) => match d.commitments.channel_flags.announce_channel {
            Some(b) => b,
            None => false,
        },
        None => false,
    };
    let channel_ext = if chan.data.is_none() {
        ChannelExt::Hosted
    } else {
        ChannelExt::Normal
    };
    ChannelStats {
        chan_state: chan.state,
        node_id: chan.node_id.clone(),
        chan_id: chan.channel_id.clone(),
        alias: resolve_alias(nodes, &chan.node_id),
        local,
        remote,
        relays_amount: totals.0,
        relays_volume: totals.1,
        relays_fees: totals.2,
        info_id: i,
        public,
        channel_ext,
    }
}

/// The statistic derived for a hosted channel.
pub open spec fn spec_hosted_stats(
    i: int,
    channel_id: String,
    chan: HostedChannel,
    relayed: Seq<RelayedInfo>,
    nodes: Seq<NetworkNode>,
    now: u64,
) -> ChannelStats {
    ChannelStats {
        chan_state: chan.state,
        node_id: chan.data.commitments.remote_node_id,
        chan_id: channel_id,
        alias: spec_alias(nodes, chan.data.commitments.remote_node_id),
        local: chan.data.commitments.local_spec.to_local,
        remote: chan.data.commitments.local_spec.to_remote,
        relays_amount: spec_chan_count(relayed, channel_id@, now, DAY_SECS) as u64,
        relays_volume: spec_chan_volume(relayed, channel_id@, now, DAY_SECS) as u64,
        relays_fees: spec_chan_fee(relayed, channel_id@, now, DAY_SECS) as u64,
        info_id: i as usize,
        public: false,
        channel_ext: ChannelExt::Hosted,
    }
}

/// Build the display statistic of one hosted channel; the lookback is the
/// fixed one-day window.
pub fn get_hosted_channel_stats(
    i: usize,
    channel_id: &String,
    chan: &HostedChannel,
    relayed: &Vec<RelayedInfo>,
    nodes: &Vec<NetworkNode>,
    now: u64,
) -> (r: ChannelStats)
    requires
        relays_ok(relayed@),
        spec_total_relay_volume(relayed@) <= u64::MAX,
    ensures
        r == spec_hosted_stats(i as int, *channel_id, *chan, relayed@, nodes@, now),
{
    let totals = chan_relay_totals(relayed, channel_id, now, DAY_SECS);
    ChannelStats {
        chan_state: chan.state,
        node_id: chan.data.commitments.remote_node_id.clone(),
        chan_id: channel_id.clone(),
        alias: resolve_alias(nodes, &chan.data.commitments.remote_node_id),
        local: chan.data.commitments.local_spec.to_local,
        remote: chan.data.commitments.local_spec.to_remote,
        relays_amount: totals.0,
        relays_volume: totals.1,
        relays_fees: totals.2,
        info_id: i,
        public: false,
        channel_ext: ChannelExt::Hosted,
    }
}

/// The statistic derived for a fiat channel: balances come from the last
/// cross-signed state, and the peg data carries the rate and the remote
/// balance it applies to.
pub open spec fn spec_fiat_stats(
    i: int,
    channel_id: String,
    chan: FiatChannel,
    relayed: Seq<RelayedInfo>,
    nodes: Seq<NetworkNode>,
    now: u64,
) -> ChannelStats {
    ChannelStats {
        chan_state: chan.state,
        node_id: chan.data.commitments.remote_node_id,
        chan_id: channel_id,
        alias: spec_alias(nodes, chan.data.commitments.remote_node_id),
        local: chan.data.commitments.last_cross_signed_state.local_balance_msat,
        remote: chan.data.commitments.last_cross_signed_state.remote_balance_msat,
        relays_amount: spec_chan_count(relayed, channel_id@, now, DAY_SECS) as u64,
        relays_volume: spec_chan_volume(relayed, channel_id@, now, DAY_SECS) as u64,
        relays_fees: spec_chan_fee(relayed, channel_id@, now, DAY_SECS) as u64,
        info_id: i as usize,
        public: false,
        channel_ext: ChannelExt::HostedFiat(
            FiatChannelData {
                rate: chan.data.commitments.last_cross_signed_state.rate,
                balance_msat: chan.data.commitments.last_cross_signed_state.remote_balance_msat,
            },
        ),
    }
}

/// Build the display statistic of one fiat channel; the lookback is the
/// fixed one-day window.
pub fn get_fiat_channel_stats(
    i: usize,
    channel_id: &String,
    chan: &FiatChannel,
    relayed: &Vec<RelayedInfo>,
    nodes: &Vec<NetworkNode>,
    now: u64,
) -> (r: ChannelStats)
    requires
        relays_ok(relayed@),
        spec_total_relay_volume(relayed@) <= u64::MAX,
    ensures
        r == spec_fiat_stats(i as int, *channel_id, *chan, relayed@, nodes@, now),
{
    let totals = chan_relay_totals(relayed, channel_id, now, DAY_SECS);
    let lcss = &chan.data.commitments.last_cross_signed_state;
    ChannelStats {
        chan_state: chan.state,
        node_id: chan.data.commitments.remote_node_id.clone(),
        chan_id: channel_id.clone(),
        alias: resolve_alias(nodes, &chan.data.commitments.remote_node_id),
        local: lcss.local_balance_msat,
        remote: lcss.remote_balance_msat,
        relays_amount: totals.0,
        relays_volume: totals.1,
        relays_fees: totals.2,
        info_id: i,
        public: false,
        channel_ext: ChannelExt::HostedFiat(
            FiatChannelData { rate: lcss.rate, balance_msat: lcss.remote_balance_msat },
        ),
    }
}

/// Build the statistics of every standard channel, in list order.
pub fn get_channels_stats(
    channels: &Vec<ChannelInfo>,
    interval: u64,
    relayed: &Vec<RelayedInfo>,
    nodes: &Vec<NetworkNode>,
    now: u64,
) -> (r: Vec<ChannelStats>)
    requires
        relays_ok(relayed@),
        spec_total_relay_volume(relayed@) <= u64::MAX,
    ensures
        r@.len() == channels@.len(),
        forall|i: int|
            0 <= i < channels@.len() ==> r@[i] == spec_channel_stats(
                i,
                interval,
                channels@[i],
                relayed@,
                nodes@,
                now,
            ),
{
    let mut r: Vec<ChannelStats> = Vec::new();
    let mut k: usize = 0;
    while k < channels.len()
        invariant
            0 <= k <= channels@.len(),
            relays_ok(relayed@),
            spec_total_relay_volume(relayed@) <= u64::MAX,
            r@.len() == k,
            forall|i: int|
                0 <= i < k ==> r@[i] == spec_channel_stats(
                    i,
                    interval,
                    channels@[i],
                    relayed@,
                    nodes@,
                    now,
                ),
        decreases channels@.len() - k,
    {
        let s = get_channel_stats(k, interval, &channels[k], relayed, nodes, now);
        r.push(s);
        k = k + 1;
    }
    r
}

/// Build the statistics of every hosted channel, in list order.
pub fn get_hosted_stats(
    hosted: &Vec<(String, HostedChannel)>,
    relayed: &Vec<RelayedInfo>,
    nodes: &Vec<NetworkNode>,
    now: u64,
) -> (r: Vec<ChannelStats>)
    requires
        relays_ok(relayed@),
        spec_total_relay_volume(relayed@) <= u64::MAX,
    ensures
        r@.len() == hosted@.len(),
        forall|i: int|
            0 <= i < hosted@.len() ==> r@[i] == spec_hosted_stats(
                i,
                hosted@[i].0,
                hosted@[i].1,
                relayed@,
                nodes@,
                now,
            ),
{
    let mut r: Vec<ChannelStats> = Vec::new();
    let mut k: usize = 0;
    while k < hosted.len()
        invariant
            0 <= k <= hosted@.len(),
            relays_ok(relayed@),
            spec_total_relay_volume(relayed@) <= u64::MAX,
            r@.len() == k,
            forall|i: int|
                0 <= i < k ==> r@[i] == spec_hosted_stats(
                    i,
                    hosted@[i].0,
                    hosted@[i].1,
                    relayed@,
                    nodes@,
                    now,
                ),
        decreases hosted@.len() - k,
    {
        let pair = &hosted[k];
        let s = get_hosted_channel_stats(k, &pair.0, &pair.1, relayed, nodes, now);
        r.push(s);
        k = k + 1;
    }
    r
}

/// Build the statistics of every fiat channel, in list order.
pub fn get_fiat_stats(
    fiat: &Vec<(String, FiatChannel)>,
    relayed: &Vec<RelayedInfo>,
    nodes: &Vec<NetworkNode>,
    now: u64,
) -> (r: Vec<ChannelStats>)
    requires
        relays_ok(relayed@),
        spec_total_relay_volume(relayed@) <= u64::MAX,
    ensures
        r@.len() == fiat@.len(),
        forall|i: int|
            0 <= i < fiat@.len() ==> r@[i] == spec_fiat_stats(
                i,
                fiat@[i].0,
                fiat@[i].1,
                relayed@,
                nodes@,
                now,
            ),
{
    let mut r: Vec<ChannelStats> = Vec::new();
    let mut k: usize = 0;
    while k < fiat.len()
        invariant
            0 <= k <= fiat@.len(),
            relays_ok(relayed@),
            spec_total_relay_volume(relayed@) <= u64::MAX,
            r@.len() == k,
            forall|i: int|
                0 <= i < k ==> r@[i] == spec_fiat_stats(
                    i,
                    fiat@[i].0,
                    fiat@[i].1,
                    relayed@,
                    nodes@,
                    now,
                ),
        decreases fiat@.len() - k,
    {
        let pair = &fiat[k];
        let s = get_fiat_channel_stats(k, &pair.0, &pair.1, relayed, nodes, now);
        r.push(s);
        k = k + 1;
    }
    r
}

} // verus!
