//! The Vyper metadata.

pub mod function;

use vstd::prelude::*;

use crate::string_map::StringMap;

use self::function::Function;

verus! {

/// The Vyper metadata.
#[derive(Debug)]
pub struct Metadata {
    /// The functions metadata.
    pub function_info: StringMap<Function>,
}

} // verus!
