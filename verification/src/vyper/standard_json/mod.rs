//! The `vyper --standard-json` input and output.

pub mod input;
pub mod output;
