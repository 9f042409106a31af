use vstd::prelude::*;

verus! {

/// Optional node plugins the dashboard knows how to query.
#[derive(Debug, Clone, Copy, PartialEq, Eq, Hash, Structural)]
pub enum NodePlugin {
    /// Hosted (custodial) channels.
    HostedChannels,
    /// Hosted channels pegged to a fiat currency.
    FiatChannels,
}

impl NodePlugin {
    /// All plugins the dashboard knows about, in probe order.
    pub fn known() -> (r: Vec<NodePlugin>)
        ensures
            r@.len() == 2,
            r@[0] == NodePlugin::HostedChannels,
            r@[1] == NodePlugin::FiatChannels,
    {
        let mut v: Vec<NodePlugin> = Vec::new();
        v.push(NodePlugin::HostedChannels);
        v.push(NodePlugin::FiatChannels);
        v
    }

    /// The plugin's display name.
    pub open spec fn spec_label(self) -> Seq<char> {
        match self {
            NodePlugin::HostedChannels => "hosted channels"@,
            NodePlugin::FiatChannels => "fiat channels"@,
        }
    }

    /// The plugin's display name.
    pub fn label(self) -> (r: String)
        ensures
            r@ == self.spec_label(),
    {
        match self {
            NodePlugin::HostedChannels => "hosted channels".to_owned(),
            NodePlugin::FiatChannels => "fiat channels".to_owned(),
        }
    }
}

/// What a capability probe of a plugin endpoint concluded.
#[derive(Debug, Clone, Copy, PartialEq, Eq, Structural)]
pub enum ProbeOutcome {
    /// The endpoint answered with a success status: the plugin is available.
    Supported,
    /// The endpoint answered "not found": the node runs without this plugin.
    Unsupported,
    /// The endpoint answered with any other error status: a transient
    /// failure, to be retried rather than recorded as "unsupported".
    Failed,
}

pub open spec fn spec_probe_outcome(status: u16) -> ProbeOutcome {
    if status == 404 {
        ProbeOutcome::Unsupported
    } else if 400 <= status < 600 {
        ProbeOutcome::Failed
    } else {
        ProbeOutcome::Supported
    }
}

/// Classify the HTTP status a plugin capability probe came back with:
/// "not found" means the plugin is absent, any other client or server error
/// is a transient failure, everything else means the plugin answered.
pub fn plugin_probe_outcome(status: u16) -> (r: ProbeOutcome)
    ensures
        r == spec_probe_outcome(status),
{
    if status == 404 {
        ProbeOutcome::Unsupported
    } else if 400 <= status && status < 600 {
        ProbeOutcome::Failed
    } else {
        ProbeOutcome::Supported
    }
}

} // verus!
