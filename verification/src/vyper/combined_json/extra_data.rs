//! Extra data for combined JSON output.

use vstd::prelude::*;

use crate::json::JsonValue;

verus! {

/// Extra data for combined JSON output.
#[derive(Debug)]
pub struct ExtraData {
    /// The project metadata.
    pub project_metadata: JsonValue,
}

impl ExtraData {
    /// A shortcut constructor.
    pub fn new(project_metadata: JsonValue) -> (r: Self)
        ensures
            r.project_metadata == project_metadata,
    {
        Self { project_metadata }
    }
}

} // verus!
