//! The `return` instruction.

use vstd::prelude::*;

use crate::project::contract::vyper::expression::tag::Tag;
use crate::project::contract::vyper::expression::Expression;
use crate::project::contract::vyper::expression::Lll;

verus! {

/// The `return` instruction.
///
/// Operands: the offset and the size of the returned data.
#[derive(Debug)]
pub struct Return(pub Vec<Expression>);

/// The literal zero.
pub open spec fn zero() -> Lll {
    Lll::Literal(seq!['0'])
}

/// A `return` of no data: offset zero, size zero.
pub open spec fn return_default() -> Lll {
    Lll::Node(Tag::RETURN, seq![zero(), zero()])
}

/// The literal zero.
pub fn zero_literal() -> (r: Expression)
    ensures
        r.model() == zero(),
{
    let mut digits: Vec<char> = Vec::new();
    digits.push('0');
    assert(digits@ =~= seq!['0']);
    Expression::IntegerLiteral(crate::text::string_of(digits.as_slice()))
}

/// The operand pair of zero offset and zero size.
pub fn zero_operands() -> (r: Vec<Expression>)
    ensures
        Expression::models(r@) == seq![zero(), zero()],
{
    let mut operands: Vec<Expression> = Vec::new();
    let offset = zero_literal();
    let size = zero_literal();
    proof {
        Expression::lemma_models_push(operands@, offset);
    }
    operands.push(offset);
    proof {
        Expression::lemma_models_push(operands@, size);
    }
    operands.push(size);
    proof {
        assert(Expression::models(Seq::<Expression>::empty()) =~= Seq::<Lll>::empty());
        assert(Seq::<Lll>::empty().push(zero()).push(zero()) =~= seq![zero(), zero()]);
    }
    operands
}

impl Return {
    /// A `return` of no data.
    pub fn default() -> (r: Self)
        ensures
            Lll::Node(Tag::RETURN, Expression::models(r.0@)) == return_default(),
    {
        Return(zero_operands())
    }
}

} // verus!
