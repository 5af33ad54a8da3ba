//! The structured instruction that a host may hand to a plugin.

use vstd::prelude::*;

verus! {

/// `serde_json::Value`: any JSON value. Nothing is said of what it holds.
#[verifier::external_type_specification]
#[verifier::external_body]
pub struct ExValue(serde_json::Value);

/// An instruction for a plugin: what to do, and with which parameters. It
/// crosses the boundary as data; the parameters follow no fixed schema.
#[derive(Debug)]
pub struct PluginCommand {
    /// Names the action.
    pub action: String,
    /// The payload of the action: nested maps, lists and scalars.
    pub parameters: serde_json::Value,
}

} // verus!
