//! The Vyper LLL-specific `assert` instruction.

use vstd::prelude::*;

use crate::project::contract::vyper::expression::Expression;

verus! {

/// The Vyper LLL-specific `assert` instruction.
///
/// Operands: the condition.
#[derive(Debug)]
pub struct Assert(pub Vec<Expression>);

} // verus!
