//! The `vyper --standard-json` output contract EVM data.

use vstd::prelude::*;

use crate::string_map::StringMap;

verus! {

/// The `vyper --standard-json` output contract EVM data.
#[derive(Debug)]
pub struct EVM {
    /// The contract method identifiers: the selector of each method
    /// signature, in hexadecimal.
    pub method_identifiers: StringMap<String>,
}

} // verus!
