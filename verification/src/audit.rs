use vstd::prelude::*;

use crate::common::Timestamp;

verus! {

/// The node's payment audit log: payments sent and received by the node
/// itself, and payments relayed through it.  Only the relayed events feed
/// the aggregation logic.
#[derive(Debug, Clone, PartialEq, Eq)]
pub struct AuditInfo {
    pub sent: Vec<SentInfo>,
    pub received: Vec<ReceivedInfo>,
    pub relayed: Vec<RelayedInfo>,
}

impl Default for AuditInfo {
    /// An empty audit log.
    fn default() -> (r: AuditInfo)
        ensures
            r.sent@.len() == 0,
            r.received@.len() == 0,
            r.relayed@.len() == 0,
    {
        AuditInfo { sent: Vec::new(), received: Vec::new(), relayed: Vec::new() }
    }
}

/// A payment sent by the node.
#[derive(Debug, Clone, PartialEq, Eq)]
pub struct SentInfo {
    pub _type: String,
    pub id: String,
    pub payment_hash: String,
    pub payment_preimage: String,
    pub recipient_amount: u64,
    pub recipient_node_id: String,
    pub parts: Vec<SentPart>,
}

/// A payment received by the node.
#[derive(Debug, Clone, PartialEq, Eq)]
pub struct ReceivedInfo {
    pub _type: String,
    pub payment_hash: String,
    pub parts: Vec<ReceivedPart>,
}

/// A completed payment forwarded through the node.  The fee earned is the
/// difference between the amount received and the amount forwarded on.
#[derive(Debug, Clone, PartialEq, Eq)]
pub struct RelayedInfo {
    pub _type: String,
    pub amount_in: u64,
    pub amount_out: u64,
    pub payment_hash: String,
    pub from_channel_id: String,
    pub to_channel_id: String,
    pub timestamp: Timestamp,
}

#[derive(Debug, Clone, PartialEq, Eq)]
pub struct SentPart {
    pub id: String,
    pub amount: u64,
    pub fees_paid: u64,
    pub to_channel_id: String,
    pub timestamp: Timestamp,
}

#[derive(Debug, Clone, PartialEq, Eq)]
pub struct ReceivedPart {
    pub amount: u64,
    pub from_channel_id: String,
    pub timestamp: Timestamp,
}

} // verus!
