//! The Vyper LLL-specific `with` instruction: binds a variable for the evaluation of a body.

use vstd::prelude::*;

use crate::project::contract::vyper::expression::functions::found_map;
use crate::project::contract::vyper::expression::functions::hoist;
use crate::project::contract::vyper::expression::functions::models_map;
use crate::project::contract::vyper::expression::functions::Hoisted;
use crate::project::contract::vyper::expression::instruction::Instruction;
use crate::project::contract::vyper::expression::tag::lemma_opcode_tag_plain;
use crate::project::contract::vyper::expression::tag::Tag;
use crate::project::contract::vyper::expression::Expression;
use crate::project::contract::vyper::expression::Lll;
use crate::string_map::StringMap;

verus! {

broadcast use lemma_opcode_tag_plain;

/// The Vyper LLL-specific `with` instruction: binds a variable for the evaluation of a body.
///
/// Operands: the identifier, the value, the body.
#[derive(Debug)]
pub struct With(pub Vec<Expression>);

impl With {
    /// The tree this instruction denotes.
    pub open spec fn model(&self) -> Lll {
        Lll::Node(Tag::With, Expression::models(self.0@))
    }

    /// Extracts the functions from the body, the third operand.
    ///
    /// On success, the functions are taken out of the operands and returned
    /// by name; when a function label's name is not an identifier, the
    /// operands are left as they were and an error is returned.
    pub fn extract_functions(&mut self) -> (r: Result<StringMap<Expression>, String>)
        requires
            !(hoist(old(self).model()) is Stuck),
        ensures
            match hoist(old(self).model()) {
                Hoisted::Done(rest, found) => r matches Ok(functions) && final(self).model() == rest
                    && models_map(functions.map()) == found_map(found),
                Hoisted::Failed => r is Err && final(self).0@ == old(self).0@,
                Hoisted::Stuck => false,
            },
    {
        let mut operands: Vec<Expression> = Vec::new();
        std::mem::swap(&mut operands, &mut self.0);
        let mut expression = Expression::Instruction(Instruction::With(With(operands)));
        let r = expression.extract_functions();
        match expression {
            Expression::Instruction(Instruction::With(inner)) => {
                self.0 = inner.0;
            },
            _ => {
                proof {
                    assert(false);
                }
            },
        }
        r
    }
}

} // verus!
