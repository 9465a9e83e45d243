//! The `vyper --standard-json` input source.

use vstd::prelude::*;

verus! {

/// The `vyper --standard-json` input source: the source code of a file.
#[derive(Debug)]
pub struct Source {
    /// The source code.
    pub content: String,
}

impl Source {
    /// A source made of its source code.
    pub fn from(content: String) -> (r: Self)
        ensures
            r.content@ == content@,
    {
        Self { content }
    }
}

} // verus!
