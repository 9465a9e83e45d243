//! The Vyper LLL-specific `exit_to` instruction.

use vstd::prelude::*;

use crate::constants::LABEL_DESTINATION_PREFIX;
use crate::constants::VARIABLE_IDENTIFIER_RETURN_PC;
use crate::project::contract::vyper::expression::Expression;
use crate::project::contract::vyper::expression::Lll;
use crate::text::chars_of;
use crate::text::is_prefix;
use crate::text::same_text;
use crate::text::starts_with;
use crate::text::string_of;

verus! {

/// The Vyper LLL-specific `exit_to` instruction.
///
/// Operands: the destination label, then the values passed to it.
#[derive(Debug)]
pub struct ExitTo(pub Vec<Expression>);

/// Where an `exit_to` goes.
#[derive(Debug)]
pub enum ExitTarget {
    /// The return block of the current function.
    Return,
    /// A block of the current function, by label.
    Block(String),
}

/// A label without the label destination prefix, if it has it.
pub open spec fn without_destination_prefix(label: Seq<char>) -> Seq<char> {
    if is_prefix(LABEL_DESTINATION_PREFIX@, label) {
        label.skip(LABEL_DESTINATION_PREFIX@.len() as int)
    } else {
        label
    }
}

impl ExitTo {
    /// Where the `exit_to` goes: the return block where its destination is
    /// the return address, else the block its destination names, without
    /// the label destination prefix.
    pub fn target(&self) -> (r: Result<ExitTarget, String>)
        requires
            self.0.len() > 0,
        ensures
            match Expression::models(self.0@)[0] {
                Lll::Name(label) => if label == VARIABLE_IDENTIFIER_RETURN_PC@ {
                    r matches Ok(ExitTarget::Return)
                } else {
                    r matches Ok(ExitTarget::Block(name)) && name@ == without_destination_prefix(label)
                },
                _ => r is Err,
            },
    {
        proof {
            Expression::lemma_models_index(self.0@);
        }
        let label = self.0[0].try_into_identifier()?;
        if same_text(label.as_str(), VARIABLE_IDENTIFIER_RETURN_PC) {
            return Ok(ExitTarget::Return);
        }
        let chars = chars_of(label.as_str());
        let prefix = chars_of(LABEL_DESTINATION_PREFIX);
        if !starts_with(chars.as_slice(), prefix.as_slice()) {
            return Ok(ExitTarget::Block(label));
        }
        let mut name: Vec<char> = Vec::new();
        let mut i: usize = prefix.len();
        proof {
            assert(name@ =~= chars@.subrange(prefix.len() as int, i as int));
        }
        while i < chars.len()
            invariant
                prefix.len() <= i <= chars.len(),
                name@ == chars@.subrange(prefix.len() as int, i as int),
            decreases chars.len() - i,
        {
            proof {
                assert(chars@.subrange(prefix.len() as int, i + 1) =~= name@.push(chars@[i as int]));
            }
            name.push(chars[i]);
            i = i + 1;
        }
        proof {
            assert(chars@.subrange(prefix.len() as int, chars.len() as int) =~= chars@.skip(prefix.len() as int));
        }
        Ok(ExitTarget::Block(string_of(name.as_slice())))
    }
}

} // verus!
