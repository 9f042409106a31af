use vstd::prelude::*;

use crate::channel::{ChannelAnnouncement, ChannelState, ChannelUpdate, CommitSpec, TlvStream};

verus! {

/// Fiat-pegged hosted channels, keyed by channel id.
#[derive(Debug, Clone, PartialEq, Eq)]
pub struct FcInfo {
    pub channels: Vec<(String, FiatChannel)>,
}

/// Hosted channels, keyed by channel id.
#[derive(Debug, Clone, PartialEq, Eq)]
pub struct HcInfo {
    pub channels: Vec<(String, HostedChannel)>,
}

#[derive(Debug, Clone, PartialEq, Eq)]
pub struct FiatChannel {
    pub state: ChannelState,
    pub data: FiatChanData,
    pub next_local_spec: CommitSpec,
}

#[derive(Debug, Clone, PartialEq, Eq)]
pub struct HostedChannel {
    pub state: ChannelState,
    pub data: HostedChanData,
    pub next_local_spec: CommitSpec,
}

#[derive(Debug, Clone, PartialEq, Eq)]
pub struct FiatChanData {
    pub commitments: FiatCommits,
    pub channel_update: ChannelUpdate,
    pub local_errors: Vec<ChanError>,
    pub remote_errors: Option<Vec<ChanError>>,
    pub resize_proposal: Option<ResizeProposal>,
    pub override_proposal: Option<OverrideFiatProposal>,
    pub margin_proposal: Option<MarginProposal>,
    pub channel_announcement: Option<ChannelAnnouncement>,
    pub last_oracle_state: Option<u64>,
}

#[derive(Debug, Clone, PartialEq, Eq)]
pub struct HostedChanData {
    pub commitments: Commits,
    pub channel_update: ChannelUpdate,
    pub local_errors: Vec<ChanError>,
    pub remote_errors: Option<Vec<ChanError>>,
    pub resize_proposal: Option<ResizeProposal>,
    pub override_proposal: Option<OverrideHostedProposal>,
    pub margin_proposal: Option<MarginProposal>,
    pub channel_announcement: Option<ChannelAnnouncement>,
}

#[derive(Debug, Clone, PartialEq, Eq)]
pub struct Commits {
    pub local_node_id: String,
    pub remote_node_id: String,
    pub channel_id: String,
    pub local_spec: CommitSpec,
    pub origin_channels: Vec<(u64, OriginChannel)>,
}

#[derive(Debug, Clone, PartialEq, Eq)]
pub struct FiatCommits {
    pub local_node_id: String,
    pub remote_node_id: String,
    pub channel_id: String,
    pub local_spec: CommitSpec,
    pub origin_channels: Vec<(u64, OriginChannel)>,
    pub last_cross_signed_state: LastCrossSignedState,
}

#[derive(Debug, Clone, PartialEq, Eq)]
pub struct LastCrossSignedState {
    pub is_host: bool,
    pub refund_script_pub_key: String,
    pub init_hosted_channel: InitHostedChannel,
    pub block_day: u64,
    pub local_balance_msat: u64,
    pub remote_balance_msat: u64,
    pub rate: u64,
    pub local_updates: u32,
    pub remote_updates: u32,
    pub incoming_htlcs: Vec<UpdateAddHtlc>,
    pub outgoing_htlcs: Vec<UpdateAddHtlc>,
    pub remote_sig_of_local: String,
    pub local_sig_of_remote: String,
}

#[derive(Debug, Clone, PartialEq, Eq)]
pub struct UpdateAddHtlc {
    pub channel_id: String,
    pub id: u64,
    pub amount_msat: u64,
    pub payment_hash: String,
    pub expiry: u32,
    pub onion_routing_packet: PaymentOnionPacket,
    pub tlv_stream: TlvStream,
}

#[derive(Debug, Clone, PartialEq, Eq)]
pub struct PaymentOnionPacket {
    pub version: u32,
    pub public_key: String,
    pub payload: String,
    pub hmac: String,
}

#[derive(Debug, Clone, PartialEq, Eq)]
pub struct InitHostedChannel {
    pub max_htlc_value_in_flight_msat: u64,
    pub htlc_minimum_msat: u64,
    pub max_accepted_htlcs: u32,
    pub channel_capacity_msat: u64,
    pub initial_client_balance_msat: u64,
    pub initial_rate: u64,
    pub features: Vec<u32>,
}

#[derive(Debug, Clone, PartialEq, Eq)]
pub struct OriginChannel {
}

#[derive(Debug, Clone, PartialEq, Eq)]
pub struct ChanError {
    pub error: LocalError,
    pub stamp: String,
    pub description: String,
}

#[derive(Debug, Clone, PartialEq, Eq)]
pub struct LocalError {
    pub channel_id: String,
    pub data: String,
    pub tlv_stream: TlvStream,
}

#[derive(Debug, Clone, PartialEq, Eq)]
pub struct ResizeProposal {
    pub new_capacity: u64,
    pub client_sig: String,
}

#[derive(Debug, Clone, PartialEq, Eq)]
pub struct OverrideFiatProposal {
    pub block_day: u32,
    pub local_balance_msat: u64,
    pub local_updates: u32,
    pub remote_updates: u32,
    pub rate: u64,
    pub local_sig_of_remote_lcss: String,
}

#[derive(Debug, Clone, PartialEq, Eq)]
pub struct OverrideHostedProposal {
    pub block_day: u32,
    pub local_balance_msat: u64,
    pub local_updates: u32,
    pub remote_updates: u32,
    pub local_sig_of_remote_lcss: String,
}

#[derive(Debug, Clone, PartialEq, Eq)]
pub struct MarginProposal {
    pub new_capacity: u64,
    pub new_rate: u64,
    pub client_sig: String,
}

} // verus!
