use vstd::prelude::*;

use crate::common::Timestamp;
use crate::node::NodeFeatures;

verus! {

/// A standard channel as the channel-list query reports it.  A channel
/// without a type-specific payload (`data` absent) is of a secondary,
/// plugin-provided kind and carries no balances here.
#[derive(Debug, Clone, PartialEq, Eq)]
pub struct ChannelInfo {
    pub node_id: String,
    pub channel_id: String,
    pub state: ChannelState,
    pub data: Option<ChannelData>,
}

/// The local balance a channel contributes to group sums: the commitment's
/// `to_local` amount, or 0 when the type-specific payload is absent.
pub open spec fn spec_local(c: ChannelInfo) -> int {
    match c.data {
        Some(d) => d.commitments.local_commit.commit_spec.to_local as int,
        None => 0,
    }
}

/// The remote balance of a channel, 0 when the payload is absent.
pub open spec fn spec_remote(c: ChannelInfo) -> int {
    match c.data {
        Some(d) => d.commitments.local_commit.commit_spec.to_remote as int,
        None => 0,
    }
}

impl ChannelInfo {
    /// Total volume of the channel: local plus remote balance, 0 for a
    /// channel without a payload.
    pub fn volume(&self) -> (r: u64)
        requires
            spec_local(*self) + spec_remote(*self) <= u64::MAX,
        ensures
            r == spec_local(*self) + spec_remote(*self),
    {
        match &self.data {
            Some(d) => {
                let s = &d.commitments.local_commit.commit_spec;
                s.to_local + s.to_remote
            },
            None => 0,
        }
    }
}

/// The lifecycle state of a channel.  `Closed` is terminal and excluded
/// from all three display groups.
#[derive(Debug, Clone, Copy, PartialEq, Eq, Hash, Structural)]
pub enum ChannelState {
    Normal,
    Opening,
    Closing,
    Closed,
    Offline,
    Syncing,
    WaitForFundingConfirmed,
}

impl ChannelState {
    /// The channel is live and routing: the "active" display group.
    pub fn is_normal(self) -> (r: bool)
        ensures
            r == (self == ChannelState::Normal),
    {
        self == ChannelState::Normal
    }

    /// The channel is in a transitional state: the "pending" display group.
    pub fn is_pending(self) -> (r: bool)
        ensures
            r == (self == ChannelState::Closing || self == ChannelState::Opening
                || self == ChannelState::Syncing
                || self == ChannelState::WaitForFundingConfirmed),
    {
        self == ChannelState::Closing || self == ChannelState::Opening
            || self == ChannelState::Syncing || self == ChannelState::WaitForFundingConfirmed
    }

    /// The counterpart is offline: the "sleeping" display group.
    pub fn is_sleeping(self) -> (r: bool)
        ensures
            r == (self == ChannelState::Offline),
    {
        self == ChannelState::Offline
    }
}

#[derive(Debug, Clone, Copy, PartialEq, Eq, Hash, Structural)]
pub enum HtlcDirection {
    In,
    Out,
}

/// The type-specific payload of a standard channel.
#[derive(Debug, Clone, PartialEq, Eq)]
pub struct ChannelData {
    pub _type: String,
    pub commitments: ChannelCommitments,
    pub short_channel_id: Option<String>,
    pub buried: Option<bool>,
    pub channel_announcement: Option<ChannelAnnouncement>,
    pub channel_update: Option<ChannelUpdate>,
}

#[derive(Debug, Clone, PartialEq, Eq)]
pub struct ChannelCommitments {
    pub channel_id: String,
    pub channel_config: Vec<String>,
    pub channel_features: Vec<String>,
    pub local_params: ChannelLocalParams,
    pub remote_params: ChannelRemoteParams,
    pub channel_flags: ChannelFlags,
    pub local_commit: LocalCommit,
    pub remote_commit: RemoteCommit,
    pub local_changes: ChannelChanges,
    pub remote_changes: ChannelChanges,
    pub local_next_htlc_id: u64,
    pub remote_next_htlc_id: u64,
    pub remote_next_commit_info: RemoteNextCommit,
    pub commit_input: CommitInput,
    pub remote_per_commitment_secrets: Option<Vec<String>>,
}

#[derive(Debug, Clone, PartialEq, Eq)]
pub enum RemoteNextCommit {
    Simple(String),
    Elaborate(RemoteNextCommitInfo),
}

#[derive(Debug, Clone, PartialEq, Eq)]
pub struct RemoteNextCommitInfo {
    pub next_remote_commit: RemoteCommit,
    pub sent: SentInfo,
    pub sent_after_local_commit_index: u32,
    pub re_sign_asap: bool,
}

/// A commitment signature message recorded inside channel data; distinct
/// from the audit log's record of a sent payment.
#[derive(Debug, Clone, PartialEq, Eq)]
pub struct SentInfo {
    pub channel_id: String,
    pub signature: String,
    pub htlc_signatures: Vec<String>,
    pub tlv_stream: TlvStream,
}

#[derive(Debug, Clone, PartialEq, Eq)]
pub struct ChannelLocalParams {
    pub node_id: String,
    pub funding_key_path: KeyPath,
    pub dust_limit: u64,
    pub max_htlc_value_in_flight_msat: u64,
    pub channel_reserve: u64,
    pub htlc_minimum: u32,
    pub to_self_delay: u32,
    pub max_accepted_htlcs: u32,
    pub is_funder: bool,
    pub default_final_script_pub_key: String,
    pub init_features: NodeFeatures,
}

#[derive(Debug, Clone, PartialEq, Eq)]
pub struct KeyPath {
    pub path: Vec<u64>,
}

#[derive(Debug, Clone, PartialEq, Eq)]
pub struct ChannelRemoteParams {
    pub node_id: String,
    pub dust_limit: u64,
    pub max_htlc_value_in_flight_msat: u64,
    pub channel_reserve: u64,
    pub htlc_minimum: u32,
    pub to_self_delay: u32,
    pub max_accepted_htlcs: u32,
    pub funding_pub_key: String,
    pub revocation_basepoint: String,
    pub payment_basepoint: String,
    pub delayed_payment_basepoint: String,
    pub htlc_basepoint: String,
    pub init_features: NodeFeatures,
}

#[derive(Debug, Clone, PartialEq, Eq)]
pub struct LocalCommit {
    pub index: u32,
    pub commit_spec: CommitSpec,
    pub commit_tx_and_remote_sig: CommitTxAndSign,
    pub htlc_txs_and_remote_sigs: Vec<HtlcTxsAndRemoteSigs>,
}

#[derive(Debug, Clone, PartialEq, Eq)]
pub struct HtlcTxsAndRemoteSigs {
    pub htlc_tx: HtlcTx,
    pub remote_sig: String,
}

#[derive(Debug, Clone, PartialEq, Eq)]
pub struct HtlcTx {
    pub txid: String,
    pub tx: String,
    pub payment_hash: Option<String>,
    pub htlc_id: u32,
}

/// The balance split of a commitment: `to_local` and `to_remote` are the
/// two sides' balances in millisatoshi.
#[derive(Debug, Clone, PartialEq, Eq)]
pub struct CommitSpec {
    pub htlcs: Vec<HtlcInfo>,
    pub commit_tx_feerate: u64,
    pub to_local: u64,
    pub to_remote: u64,
}

#[derive(Debug, Clone, PartialEq, Eq)]
pub struct HtlcInfo {
    pub direction: HtlcDirection,
    pub add: HtlcAdd,
}

#[derive(Debug, Clone, PartialEq, Eq)]
pub struct HtlcAdd {
    pub channel_id: String,
    pub id: u32,
    pub amount_msat: u64,
    pub payment_hash: String,
    pub cltv_expiry: u64,
    pub onion_routing_packet: Option<OnionRoutingPacket>,
    pub tlv_stream: TlvStream,
}

#[derive(Debug, Clone, PartialEq, Eq)]
pub struct OnionRoutingPacket {
    pub version: u32,
    pub public_key: String,
    pub payload: String,
    pub hmac: String,
}

#[derive(Debug, Clone, PartialEq, Eq)]
pub struct CommitTxAndSign {
    pub commit_tx: CommitTx,
    pub remote_sig: String,
}

#[derive(Debug, Clone, PartialEq, Eq)]
pub struct CommitTx {
    pub txid: String,
    pub tx: String,
}

#[derive(Debug, Clone, PartialEq, Eq)]
pub struct RemoteCommit {
    pub index: u32,
    pub commit_spec: CommitSpec,
    pub txid: String,
    pub remote_per_commitment_point: String,
}

#[derive(Debug, Clone, PartialEq, Eq)]
pub struct ChannelChanges {
    pub proposed: Vec<ProposedChange>,
    pub signed: Vec<SignedChange>,
    pub acked: Vec<AckedChange>,
}

#[derive(Debug, Clone, PartialEq, Eq)]
pub struct ProposedChange {
}

#[derive(Debug, Clone, PartialEq, Eq)]
pub struct SignedChange {
    pub channel_id: String,
    pub id: Option<u32>,
    pub reason: Option<String>,
    pub tlv_stream: TlvStream,
}

#[derive(Debug, Clone, PartialEq, Eq)]
pub struct AckedChange {
}

#[derive(Debug, Clone, PartialEq, Eq)]
pub struct CommitInput {
    pub out_point: String,
    pub amount_satoshis: u64,
}

#[derive(Debug, Clone, PartialEq, Eq)]
pub struct ChannelAnnouncement {
    pub node_signature1: String,
    pub node_signature2: String,
    pub bitcoin_signature1: String,
    pub bitcoin_signature2: String,
    pub features: NodeFeatures,
    pub chain_hash: String,
    pub short_channel_id: String,
    pub node_id1: String,
    pub node_id2: String,
    pub bitcoin_key1: String,
    pub bitcoin_key2: String,
    pub tlv_stream: TlvStream,
}

#[derive(Debug, Clone, PartialEq, Eq)]
pub struct TlvStream {
}

#[derive(Debug, Clone, PartialEq, Eq)]
pub struct ChannelUpdate {
    pub signature: String,
    pub chain_hash: String,
    pub short_channel_id: String,
    pub timestamp: Timestamp,
    pub channel_flags: ChannelFlags,
    pub cltv_expiry_delta: u32,
    pub htlc_minimum_msat: u64,
    pub htlc_maximum_msat: u64,
    pub fee_base_msat: u64,
    pub fee_proportional_millionths: u64,
    pub tlv_stream: TlvStream,
}

#[derive(Debug, Clone, PartialEq, Eq)]
pub struct ChannelFlags {
    pub is_enabled: Option<bool>,
    pub is_node1: Option<bool>,
    pub announce_channel: Option<bool>,
}

} // verus!
