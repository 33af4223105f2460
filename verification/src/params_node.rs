//! Command-line parameters that determine the node key configuration.

use vstd::prelude::*;
use vstd::string::*;
use vstd::utf8::encode_utf8;

use crate::error::Error;
use crate::hex::{hex_decode, hex_decode_seq, is_hex_seq};
use crate::identity::Ed25519SecretKey;
use crate::node_key::{Ed25519Secret, NodeKeyConfig, Secret};

verus! {

/// The types of secret keys a node can use.
#[derive(Debug, Copy, Clone, PartialEq, Eq)]
pub enum NodeKeyType {
    /// Use ed25519.
    Ed25519,
}

/// Parameters used to create the `NodeKeyConfig`, which determines the
/// keypair used for the node's network identity.
pub struct NodeKeyParams {
    /// The secret key to use, given directly as a string of exactly 64
    /// hexadecimal characters encoding a 32-byte Ed25519 secret key.
    /// Takes precedence over `node_key_file`.
    pub node_key: Option<String>,
    /// The type of secret key to use.
    pub node_key_type: NodeKeyType,
    /// The file from which to read the node's secret key: an unencoded
    /// 32-byte or hex-encoded Ed25519 secret key. If the file does not
    /// exist, it is created with a newly generated secret key.
    pub node_key_file: Option<String>,
}

/// True of a command-line secret string that parses: its UTF-8 form is
/// exactly 64 hexadecimal digits.
pub open spec fn spec_hex_key_valid(s: Seq<char>) -> bool {
    encode_utf8(s).len() == 64 && is_hex_seq(encode_utf8(s))
}

/// The exact message of the input-validation error for a secret string
/// `s` that does not parse: it names the bad value.
pub open spec fn spec_invalid_key_message(s: Seq<char>) -> Seq<char> {
    "Invalid node key: "@ + ("not a string of 64 hexadecimal characters: "@ + s)
}

/// The node key configuration that the given parameters call for,
/// relative to the network config directory: a directly given key
/// first, else the given key file, else the type-specific default file
/// inside the directory.
pub open spec fn spec_node_key_matches(
    c: NodeKeyConfig,
    p: NodeKeyParams,
    net_config_dir: Seq<char>,
) -> bool {
    match p.node_key {
        Some(s) => match c {
            NodeKeyConfig::Ed25519(Secret::Input(k)) => k@ == hex_decode_seq(encode_utf8(s@)),
            _ => false,
        },
        None => match p.node_key_file {
            Some(f) => match c {
                NodeKeyConfig::Ed25519(Secret::File(q)) => q@ == f@,
                _ => false,
            },
            None => match c {
                NodeKeyConfig::Ed25519(Secret::File(q)) => q@ == net_config_dir
                    + "/secret_ed25519"@,
                _ => false,
            },
        },
    }
}

impl NodeKeyParams {
    /// Create a `NodeKeyConfig` from the given `NodeKeyParams` in the
    /// context of the network config storage directory. Fails exactly
    /// when a directly given secret string does not parse.
    pub fn node_key(&self, net_config_dir: &String) -> (r: Result<NodeKeyConfig, Error>)
        ensures
            r is Ok <==> (self.node_key matches Some(s) ==> spec_hex_key_valid(s@)),
            r matches Ok(c) ==> spec_node_key_matches(c, *self, net_config_dir@) && c.wf(),
            r matches Err(e) ==> e matches Error::Input(m) && (self.node_key matches Some(s) && m@
                == spec_invalid_key_message(s@)),
    {
        match self.node_key_type {
            NodeKeyType::Ed25519 => {
                let secret = match &self.node_key {
                    Some(node_key) => match parse_ed25519_secret(node_key.as_str()) {
                        Ok(s) => s,
                        Err(e) => {
                            return Err(e);
                        },
                    },
                    None => match &self.node_key_file {
                        Some(f) => Secret::File(f.clone()),
                        None => Secret::File(
                            net_config_dir.clone().concat("/secret_ed25519"),
                        ),
                    },
                };
                Ok(NodeKeyConfig::Ed25519(secret))
            },
        }
    }
}

/// Create an error caused by an invalid node key argument.
fn invalid_node_key(detail: &str) -> (r: Error)
    ensures
        r matches Error::Input(m) && m@ == "Invalid node key: "@ + detail@,
{
    Error::Input(String::from_str("Invalid node key: ").concat(detail))
}

/// Parse an Ed25519 secret key from a hex string into a `Secret`.
/// Succeeds exactly when the string is 64 hexadecimal characters; a
/// string of any other length, or with a non-hex character, is an
/// input-validation error whose message names the bad value.
pub fn parse_ed25519_secret(hex: &str) -> (r: Result<Ed25519Secret, Error>)
    ensures
        r is Ok <==> spec_hex_key_valid(hex@),
        r matches Ok(s) ==> match s {
            Secret::Input(k) => k@ == hex_decode_seq(encode_utf8(hex@)) && k.wf(),
            _ => false,
        },
        r matches Err(e) ==> e matches Error::Input(m) && m@ == spec_invalid_key_message(hex@),
{
    let bytes = hex.as_bytes();
    if bytes.len() == 64 {
        if let Some(decoded) = hex_decode(bytes) {
            match Ed25519SecretKey::from_bytes(decoded) {
                Ok(k) => {
                    return Ok(Secret::Input(k));
                },
                Err(_) => {
                    return Err(invalid_node_key(bad_key_detail(hex).as_str()));
                },
            }
        }
    }
    Err(invalid_node_key(bad_key_detail(hex).as_str()))
}

/// The cause named by the input-validation error: what was expected,
/// and the value that was given.
fn bad_key_detail(hex: &str) -> (r: String)
    ensures
        r@ == "not a string of 64 hexadecimal characters: "@ + hex@,
{
    String::from_str("not a string of 64 hexadecimal characters: ").concat(hex)
}

} // verus!
