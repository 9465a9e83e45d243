//! The `vyper --standard-json` output error.

use vstd::prelude::*;

verus! {

/// The `vyper --standard-json` output error.
#[derive(Debug)]
pub struct Error {
    /// The error message.
    pub message: String,
}

impl Error {
    /// The text the error is shown as: its message.
    pub fn to_string(&self) -> (r: String)
        ensures
            r@ == self.message@,
    {
        self.message.clone()
    }
}

} // verus!
