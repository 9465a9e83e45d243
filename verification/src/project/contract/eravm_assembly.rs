//! The EraVM assembly contract.

use vstd::prelude::*;

verus! {

/// The EraVM assembly contract.
#[derive(Debug)]
pub struct Contract {
    /// The contract source code.
    pub source_code: String,
}

impl Contract {
    /// A shortcut constructor.
    pub fn new(source_code: String) -> (r: Self)
        ensures
            r == (Contract { source_code }),
    {
        Self { source_code }
    }
}

} // verus!
