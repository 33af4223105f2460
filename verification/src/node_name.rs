//! Random node-name generation.

use vstd::prelude::*;
use vstd::string::*;

verus! {

/// The maximum number of characters for a node name.
pub(crate) const NODE_NAME_MAX_LENGTH: usize = 64;

/// Relies on `names::Generator` with the numbered naming scheme: draws
/// a random adjective-noun-number name. The value is random; nothing
/// is promised of it.
#[verifier::external_body]
fn random_name_candidate() -> (r: String) {
    names::Generator::with_naming(names::Name::Numbered).next().unwrap_or_default()
}

/// Generate a valid random name for the node: candidates are drawn
/// until a nonempty one shorter than the maximum length comes up. The
/// generator's names always are, so the bounded retry never runs out
/// in practice; if it ever did, a fixed short name is used.
pub fn generate_node_name() -> (r: String)
    ensures
        0 < r@.len() < 64,
{
    let mut attempts: usize = 0;
    while attempts < 16
        decreases 16 - attempts,
    {
        let node_name = random_name_candidate();
        let len: usize = node_name.as_str().unicode_len();
        if 0 < len && len < NODE_NAME_MAX_LENGTH {
            return node_name;
        }
        attempts = attempts + 1;
    }
    proof {
        reveal_strlit("node");
    }
    String::from_str("node")
}

} // verus!
