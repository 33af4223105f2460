//! Command-line parameters used to create the network configuration.

use vstd::prelude::*;
use vstd::string::*;

use crate::error::Error;
use crate::network_config::NetworkConfiguration;
use crate::node_key::{NodeKeyConfig, Secret};
use crate::params_node::{
    spec_hex_key_valid, spec_invalid_key_message, spec_node_key_matches, NodeKeyParams,
};

verus! {

/// Parameters used to create the network configuration.
pub struct NetworkParams {
    /// Parameters for the node's secret key, when given.
    pub node_key_params: Option<NodeKeyParams>,
}

impl NetworkParams {
    /// Build the network configuration for a node of the given name.
    /// The node key configuration follows the node key parameters when
    /// they are given — failing exactly when a directly given secret
    /// string does not parse, with that input-validation error handed
    /// through unchanged — and defaults to a freshly generated key
    /// otherwise.
    pub fn to_network_config(&self, node_name: &str, net_config_dir: &String) -> (r: Result<
        NetworkConfiguration,
        Error,
    >)
        ensures
            r matches Ok(c) ==> c.node_name@ == node_name@ && c.node_key.wf(),
            match self.node_key_params {
                Some(p) => {
                    &&& (r is Ok <==> (p.node_key matches Some(s) ==> spec_hex_key_valid(s@)))
                    &&& (r matches Ok(c) ==> spec_node_key_matches(c.node_key, p, net_config_dir@))
                    &&& (r matches Err(e) ==> e matches Error::Input(m) && (p.node_key
                        matches Some(s) && m@ == spec_invalid_key_message(s@)))
                },
                None => r matches Ok(c) && c.node_key == NodeKeyConfig::Ed25519(
                    Secret::<crate::identity::Ed25519SecretKey>::New,
                ),
            },
    {
        let node_key = match &self.node_key_params {
            Some(params) => match params.node_key(net_config_dir) {
                Ok(k) => k,
                Err(e) => {
                    return Err(e);
                },
            },
            None => NodeKeyConfig::default(),
        };
        Ok(NetworkConfiguration { node_name: String::from_str(node_name), node_key })
    }
}

} // verus!
