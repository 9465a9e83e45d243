//! The LLVM IR contract.

use vstd::prelude::*;

use crate::vyper::version::SemVer;

verus! {

/// The LLVM IR contract.
#[derive(Debug)]
pub struct Contract {
    /// The LLVM framework version.
    pub version: SemVer,
    /// The contract source code.
    pub source_code: String,
}

impl Contract {
    /// A shortcut constructor.
    pub fn new(version: SemVer, source_code: String) -> (r: Self)
        ensures
            r == (Contract { version, source_code }),
    {
        Self { version, source_code }
    }
}

} // verus!
