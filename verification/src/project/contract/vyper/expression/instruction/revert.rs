//! The `revert` instruction.

use vstd::prelude::*;

use crate::project::contract::vyper::expression::instruction::ret::zero;
use crate::project::contract::vyper::expression::instruction::ret::zero_operands;
use crate::project::contract::vyper::expression::tag::Tag;
use crate::project::contract::vyper::expression::Expression;
use crate::project::contract::vyper::expression::Lll;

verus! {

/// The `revert` instruction.
///
/// Operands: the offset and the size of the revert data.
#[derive(Debug)]
pub struct Revert(pub Vec<Expression>);

/// A `revert` with no data: offset zero, size zero.
pub open spec fn revert_default() -> Lll {
    Lll::Node(Tag::REVERT, seq![zero(), zero()])
}

impl Revert {
    /// A `revert` with no data.
    pub fn default() -> (r: Self)
        ensures
            Lll::Node(Tag::REVERT, Expression::models(r.0@)) == revert_default(),
    {
        Revert(zero_operands())
    }
}

} // verus!
