//! The `deploy` instruction.

use vstd::prelude::*;
use vstd::string::StringExecFns;

use crate::project::contract::vyper::expression::instruction::seq::SeqInstruction;
use crate::project::contract::vyper::expression::instruction::Instruction;
use crate::project::contract::vyper::expression::tag::lemma_opcode_tag_plain;
use crate::project::contract::vyper::expression::tag::Tag;
use crate::project::contract::vyper::expression::found_message;
use crate::project::contract::vyper::expression::not_sequence_prefix;
use crate::project::contract::vyper::expression::Expression;
use crate::text::is_prefix;
use crate::project::contract::vyper::expression::Lll;

verus! {

broadcast use {vstd::std_specs::vec::group_vec_axioms, lemma_opcode_tag_plain};

/// The `deploy` instruction.
///
/// It is the upper level instruction which describes the deploy code. The runtime code is located
/// in its operands.
///
/// Since the deploy and runtime code in ZKsync are not separated, they are flattened and
/// translated as entities of the same level with branching in the contract entry.
///
/// Operands: a zero, the runtime code sequence, the immutables size.
#[derive(Debug)]
pub struct Deploy(pub Vec<Expression>);

impl Deploy {
    /// The operands of the instruction.
    pub open spec fn operands(&self) -> Seq<Lll> {
        Expression::models(self.0@)
    }

    /// Extracts the runtime code expression and the immutables size from the deploy code.
    pub fn extract_runtime_code(self) -> (r: Result<(SeqInstruction, Expression), String>)
        ensures
            if self.operands().len() == 3 && self.operands()[1] is Node && self.operands()[1]->Node_0
                == Tag::Sequence {
                r matches Ok((sequence, immutables_size)) && sequence.items()
                    == self.operands()[1]->Node_1 && immutables_size.model() == self.operands()[2]
            } else {
                r matches Err(message) && is_prefix(not_sequence_prefix(), message@)
            },
    {
        proof {
            Expression::lemma_models_index(self.0@);
        }
        if self.0.len() != 3 {
            let mut message = String::from_str("Expected `seq`, found ");
            message.append("no runtime code");
            proof {
                assert(message@.subrange(0, not_sequence_prefix().len() as int) =~= not_sequence_prefix());
            }
            return Err(message);
        }
        let mut operands = self.0;
        let ghost all = operands@;
        let immutables_size = operands.pop().unwrap();
        let expression = operands.pop().unwrap();
        proof {
            assert(immutables_size == all[2]);
            assert(expression == all[1]);
        }
        match expression {
            Expression::Instruction(Instruction::Sequence(sequence)) => Ok((sequence, immutables_size)),
            other => {
                proof {
                    reveal_strlit("Expected `seq`, found ");
                }
                Err(found_message("Expected `seq`, found ", &other))
            },
        }
    }
}

} // verus!
