//! The Vyper LLL-specific `goto` instruction.

use vstd::prelude::*;

use crate::constants::FUNCTION_IDENTIFIER_FALLBACK;
use crate::constants::LABEL_DESTINATION_PREFIX;
use crate::constants::LABEL_SUFFIX_CLEANUP;
use crate::project::contract::vyper::expression::Expression;
use crate::project::contract::vyper::expression::Lll;
use crate::text::chars_of;
use crate::text::ends_with;
use crate::text::is_prefix;
use crate::text::is_suffix;
use crate::text::same_text;
use crate::text::starts_with;

verus! {

broadcast use vstd::std_specs::vec::group_vec_axioms;

/// The Vyper LLL-specific `goto` instruction.
///
/// Operands: the target label, then the arguments passed to it.
#[derive(Debug)]
pub struct Goto(pub Vec<Expression>);

/// Where a `goto` goes.
#[derive(Debug)]
pub enum GotoTarget {
    /// A block of the current function, by label: a cleanup block or the
    /// fallback.
    Block(String),
    /// A function, by name.
    Function(String),
}

/// Whether a `goto` to a label jumps to a block rather than calls a
/// function: the label names a cleanup block or the fallback.
pub open spec fn is_block_label(label: Seq<char>) -> bool {
    is_suffix(LABEL_SUFFIX_CLEANUP@, label) || label == FUNCTION_IDENTIFIER_FALLBACK@
}

/// The arguments of a function call: the operands, without the identifiers
/// that name label destinations.
pub open spec fn call_arguments(operands: Seq<Lll>) -> Seq<Lll>
    decreases operands.len(),
{
    if operands.len() == 0 {
        Seq::empty()
    } else {
        let last = operands.last();
        let rest = call_arguments(operands.drop_last());
        match last {
            Lll::Name(name) => if is_prefix(LABEL_DESTINATION_PREFIX@, name) {
                rest
            } else {
                rest.push(last)
            },
            _ => rest.push(last),
        }
    }
}

impl Goto {
    /// Returns a `goto` to the specified block.
    pub fn new_to_block(name: &str) -> (r: Self)
        ensures
            Expression::models(r.0@) == seq![Lll::Name(name@)],
    {
        let mut operands: Vec<Expression> = Vec::new();
        operands.push(Expression::Identifier(name.to_owned()));
        proof {
            Expression::lemma_models_index(operands@);
            assert(Expression::models(operands@) =~= seq![Lll::Name(name@)]);
        }
        Self(operands)
    }

    /// Where the `goto` goes: a block where its label names a cleanup block
    /// or the fallback, else the function its label names.
    pub fn target(&self) -> (r: Result<GotoTarget, String>)
        requires
            self.0.len() > 0,
        ensures
            match Expression::models(self.0@)[0] {
                Lll::Name(label) => if is_block_label(label) {
                    r matches Ok(GotoTarget::Block(name)) && name@ == label
                } else {
                    r matches Ok(GotoTarget::Function(name)) && name@ == label
                },
                _ => r is Err,
            },
    {
        proof {
            Expression::lemma_models_index(self.0@);
        }
        let label = self.0[0].try_into_identifier()?;
        let chars = chars_of(label.as_str());
        let suffix = chars_of(LABEL_SUFFIX_CLEANUP);
        if ends_with(chars.as_slice(), suffix.as_slice()) || same_text(
            label.as_str(),
            FUNCTION_IDENTIFIER_FALLBACK,
        ) {
            Ok(GotoTarget::Block(label))
        } else {
            Ok(GotoTarget::Function(label))
        }
    }

    /// The arguments a call to the function the `goto` names is made with:
    /// the operands after the label, without the identifiers that name label
    /// destinations.
    pub fn function_call_arguments(&self) -> (r: Vec<Expression>)
        requires
            self.0.len() > 0,
        ensures
            Expression::models(r@) == call_arguments(Expression::models(self.0@).drop_first()),
    {
        let ghost operands = Expression::models(self.0@).drop_first();
        proof {
            Expression::lemma_models_index(self.0@);
        }
        let prefix = chars_of(LABEL_DESTINATION_PREFIX);
        let mut arguments: Vec<Expression> = Vec::new();
        let mut i: usize = 1;
        proof {
            assert(operands.take(0) =~= Seq::<Lll>::empty());
            assert(Expression::models(arguments@) =~= Seq::<Lll>::empty());
        }
        while i < self.0.len()
            invariant
                1 <= i <= self.0.len(),
                operands == Expression::models(self.0@).drop_first(),
                Expression::models(self.0@).len() == self.0.len(),
                forall|j: int| 0 <= j < self.0.len() ==> #[trigger] Expression::models(self.0@)[j] == self.0@[j].model(),
                prefix@ == LABEL_DESTINATION_PREFIX@,
                Expression::models(arguments@) == call_arguments(operands.take(i - 1)),
            decreases self.0.len() - i,
        {
            let ghost taken = operands.take(i - 1);
            proof {
                assert(operands.take(i as int).drop_last() =~= taken);
                assert(operands.take(i as int).last() == self.0@[i as int].model());
            }
            let skip = match &self.0[i] {
                Expression::Identifier(identifier) => {
                    let name = chars_of(identifier.as_str());
                    starts_with(name.as_slice(), prefix.as_slice())
                },
                _ => false,
            };
            if !skip {
                let argument = self.0[i].duplicate();
                proof {
                    Expression::lemma_models_push(arguments@, argument);
                }
                arguments.push(argument);
            }
            i = i + 1;
        }
        proof {
            assert(operands.take(self.0.len() - 1) =~= operands);
        }
        arguments
    }
}

} // verus!
