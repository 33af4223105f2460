//! Network service configuration.

use vstd::prelude::*;

use crate::node_key::NodeKeyConfig;

verus! {

/// Network service configuration.
#[derive(Clone)]
pub struct NetworkConfiguration {
    /// Name of the node. Sent over the wire for debugging purposes.
    pub node_name: String,
    /// The node key configuration, which determines the node's network
    /// identity keypair.
    pub node_key: NodeKeyConfig,
}

} // verus!
