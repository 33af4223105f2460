//! A node-identity secret-key resolver: it evaluates a declarative
//! description of where a secret key comes from (given directly, read
//! from a file, or freshly generated) into a concrete Ed25519 keypair
//! that identifies a peer on the network.

pub mod base_path;
pub mod error;
pub mod hex;
pub mod identity;
pub mod network_config;
pub mod node_key;
pub mod node_name;
pub mod params_network;
pub mod params_node;
pub mod params_shared;

pub use base_path::BasePath;
pub use error::Error;
