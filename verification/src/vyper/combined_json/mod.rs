//! The `vyper --combined-json` output.

pub mod contract;
pub mod extra_data;

use vstd::prelude::*;

use crate::string_map::StringMap;
use crate::vyper::version::SemVer;

use self::contract::Contract;

verus! {

/// The `vyper --combined-json` output.
#[derive(Debug)]
pub struct CombinedJson {
    /// The contract entries.
    pub contracts: StringMap<Contract>,
    /// The `vyper` compiler version.
    pub version: Option<String>,
    /// The `zkvyper` compiler version.
    pub zk_version: String,
}

impl CombinedJson {
    /// A shortcut constructor.
    ///
    /// Contracts with ABI and method identifiers must be provided here.
    pub fn new(contracts: StringMap<Contract>, version: Option<&SemVer>, zk_version: &SemVer) -> (r: Self)
        ensures
            r.contracts == contracts,
            match version {
                Some(version) => r.version matches Some(text) && text@ == version.text(),
                None => r.version is None,
            },
            r.zk_version@ == zk_version.text(),
    {
        Self {
            contracts,
            version: match version {
                Some(version) => Some(version.to_string()),
                None => None,
            },
            zk_version: zk_version.to_string(),
        }
    }
}

} // verus!
