use vstd::prelude::*;

verus! {

/// The node's self-description returned by the identity query.
#[derive(Debug, Clone, PartialEq, Eq)]
pub struct NodeInfo {
    pub version: String,
    pub node_id: String,
    pub alias: String,
    pub color: String,
    pub features: NodeFeatures,
    pub chain_hash: String,
    pub network: NodeNetwork,
    pub block_height: u64,
    pub public_addresses: Vec<String>,
    pub instance_id: String,
}

/// Feature flags a node advertises, keyed by feature name.
#[derive(Debug, Clone, PartialEq, Eq)]
pub struct NodeFeatures {
    pub activated: Vec<(String, FeatureStatus)>,
    pub unknown: Vec<u32>,
}

#[derive(Debug, Clone, Copy, PartialEq, Eq, Hash, Structural)]
pub enum FeatureStatus {
    Optional,
    Mandatory,
}

#[derive(Debug, Clone, Copy, PartialEq, Eq, Hash, Structural)]
pub enum NodeNetwork {
    Testnet,
    Regtest,
    Mainnet,
}

/// A known network peer, used to resolve a channel counterpart's identifier
/// to a human-readable alias.
#[derive(Debug, Clone, PartialEq, Eq)]
pub struct NetworkNode {
    pub signature: String,
    pub features: NodeFeatures,
    pub timestamp: u64,
    pub node_id: String,
    pub rgb_color: String,
    pub alias: String,
    pub addresses: Vec<String>,
}

} // verus!
