//! The Vyper LLL-specific `set` instruction: assigns a variable.

use vstd::prelude::*;

use crate::project::contract::vyper::expression::Expression;

verus! {

/// The Vyper LLL-specific `set` instruction: assigns a variable.
///
/// Operands: the identifier, the value.
#[derive(Debug)]
pub struct SetInstruction(pub Vec<Expression>);

} // verus!
