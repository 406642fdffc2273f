//! Tool definitions used as schema-bearing response channels.

use vstd::prelude::*;

use crate::json::JsonValue;

verus! {

/// A tool definition: the name a model calls, a description for the model, and the JSON
/// schema of the call's arguments.
#[derive(Debug)]
pub struct ToolDef {
    pub name: String,
    pub description: String,
    pub parameters: JsonValue,
}

} // verus!
