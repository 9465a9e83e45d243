//! The Vyper LLL-specific `label` instruction.

use vstd::prelude::*;

use crate::constants::DEFAULT_PASS_IDENTIFIER;
use crate::constants::FUNCTION_NAME_CONSTRUCTOR;
use crate::constants::FUNCTION_PREFIX_EXTERNAL;
use crate::constants::LABEL_SUFFIX_CLEANUP;
use crate::constants::VARIABLE_IDENTIFIER_RETURN_BUFFER;
use crate::constants::VARIABLE_IDENTIFIER_RETURN_PC;
use crate::project::contract::vyper::expression::functions::hoist;
use crate::project::contract::vyper::expression::functions::is_function_name;
use crate::project::contract::vyper::expression::functions::models_map;
use crate::project::contract::vyper::expression::functions::found_map;
use crate::project::contract::vyper::expression::functions::Hoisted;
use crate::project::contract::vyper::expression::instruction::seq::is_pass_or_empty_items;
use crate::project::contract::vyper::expression::instruction::Instruction;
use crate::project::contract::vyper::expression::is_identifier;
use crate::project::contract::vyper::expression::is_name;
use crate::project::contract::vyper::expression::is_pass;
use crate::project::contract::vyper::expression::pass;
use crate::project::contract::vyper::expression::tag::lemma_opcode_tag_plain;
use crate::project::contract::vyper::expression::tag::Tag;
use crate::project::contract::vyper::expression::Expression;
use crate::project::contract::vyper::expression::Lll;
use crate::string_map::StringMap;
use crate::text::chars_of;
use crate::text::contains;
use crate::text::contains_chars;
use crate::text::ends_with;
use crate::text::is_prefix;
use crate::text::is_suffix;
use crate::text::same_text;
use crate::text::starts_with;

verus! {

broadcast use {vstd::std_specs::vec::group_vec_axioms, lemma_opcode_tag_plain};

/// The Vyper LLL-specific `label` instruction.
///
/// Operands: the label name, the variable list, the body.
#[derive(Debug)]
pub struct Label(pub Vec<Expression>);

/// Whether every variable of a list is an identifier.
pub open spec fn all_names(variables: Seq<Lll>) -> bool {
    forall|i: int| 0 <= i < variables.len() ==> (#[trigger] variables[i]) is Name
}

/// The names of a list of identifiers, without the return address, which is
/// no argument of a block.
pub open spec fn argument_names(variables: Seq<Lll>) -> Seq<Seq<char>>
    decreases variables.len(),
{
    if variables.len() == 0 {
        Seq::empty()
    } else {
        let rest = argument_names(variables.drop_last());
        match variables.last() {
            Lll::Name(name) => if name == VARIABLE_IDENTIFIER_RETURN_PC@ {
                rest
            } else {
                rest.push(name)
            },
            _ => rest,
        }
    }
}

/// The arguments a label block is declared with, if its second operand is a
/// list of identifiers or the bare `var_list` identifier.
pub open spec fn label_arguments(operands: Seq<Lll>) -> Option<Seq<Seq<char>>> {
    if operands.len() < 2 {
        None
    } else {
        match operands[1] {
            Lll::Node(Tag::Var_List, variables) => if all_names(variables) {
                Some(argument_names(variables))
            } else {
                None
            },
            Lll::Name(name) => if name == "var_list"@ {
                Some(Seq::empty())
            } else {
                None
            },
            _ => None,
        }
    }
}

/// Whether a label name names a constructor block.
pub open spec fn is_constructor_name(name: Seq<char>) -> bool {
    is_prefix(FUNCTION_PREFIX_EXTERNAL@, name) && contains(name, FUNCTION_NAME_CONSTRUCTOR@)
}

/// Whether a label must be generated although its body is `pass`: the
/// cleanup block of the constructor, to which `vyper` generates jumps.
pub open spec fn is_constructor_cleanup(name: Seq<char>) -> bool {
    is_constructor_name(name) && is_suffix(LABEL_SUFFIX_CLEANUP@, name)
}

/// Whether a list of variables names the variable `name`.
pub open spec fn has_variable(variables: Seq<Lll>, name: Seq<char>) -> bool {
    exists|i: int| 0 <= i < variables.len() && #[trigger] is_name(variables[i], name)
}

impl Label {
    /// The operands of the label.
    pub open spec fn operands(&self) -> Seq<Lll> {
        Expression::models(self.0@)
    }

    /// Returns the label name.
    pub fn name(&self) -> (r: Result<String, String>)
        requires
            self.0.len() > 0,
        ensures
            match self.operands()[0] {
                Lll::Name(name) => r matches Ok(label) && label@ == name,
                _ => r is Err,
            },
    {
        proof {
            Expression::lemma_models_index(self.0@);
        }
        self.0[0].try_into_identifier()
    }

    /// Whether the label is a function entry block.
    pub fn is_function_entry(&self) -> (r: Result<bool, String>)
        requires
            self.0.len() > 0,
        ensures
            match self.operands()[0] {
                Lll::Name(name) => r == Ok::<bool, String>(is_function_name(name)),
                _ => r is Err,
            },
    {
        let name = self.name()?;
        let chars = chars_of(name.as_str());
        let external = chars_of(FUNCTION_PREFIX_EXTERNAL);
        let internal = chars_of(crate::constants::FUNCTION_PREFIX_INTERNAL);
        Ok(starts_with(chars.as_slice(), external.as_slice()) || starts_with(
            chars.as_slice(),
            internal.as_slice(),
        ))
    }

    /// Whether the label is a constructor block.
    pub fn is_constructor_block(label: &str) -> (r: bool)
        ensures
            r == is_constructor_name(label@),
    {
        let chars = chars_of(label);
        let external = chars_of(FUNCTION_PREFIX_EXTERNAL);
        let constructor = chars_of(FUNCTION_NAME_CONSTRUCTOR);
        starts_with(chars.as_slice(), external.as_slice()) && contains_chars(
            chars.as_slice(),
            constructor.as_slice(),
        )
    }

    /// Checks whether the label is empty. If it is, nothing is generated.
    pub fn is_empty(&self) -> (r: bool)
        ensures
            r == (self.0.len() <= 1),
    {
        self.0.len() <= 1
    }

    /// Checks whether the label body is empty. If it is, nothing is generated.
    ///
    /// The cleanup block cannot be ignored in deploy code, because `vyper` generates jumps to them.
    pub fn can_block_be_ignored(&self) -> (r: bool)
        requires
            self.0.len() > 0,
        ensures
            r == match self.operands()[0] {
                Lll::Name(name) => !is_constructor_cleanup(name) && self.operands().len() > 2
                    && self.operands()[2] == pass(),
                _ => true,
            },
    {
        proof {
            Expression::lemma_models_index(self.0@);
        }
        let name = match self.name() {
            Ok(identifier) => identifier,
            Err(_) => return true,
        };
        let chars = chars_of(name.as_str());
        let cleanup = chars_of(LABEL_SUFFIX_CLEANUP);
        if Self::is_constructor_block(name.as_str()) && ends_with(chars.as_slice(), cleanup.as_slice()) {
            return false;
        }
        self.0.len() > 2 && is_pass(&self.0[2])
    }

    /// Checks whether the label body is an empty sequence. If it is, a return is appended.
    ///
    /// Only used by the cleanup block in deploy code.
    pub fn is_block_empty_sequence(&self) -> (r: bool)
        ensures
            r == if self.operands().len() > 2 {
                match self.operands()[2] {
                    Lll::Node(Tag::Pass, operands) => operands.len() == 0,
                    Lll::Node(Tag::Sequence, items) => is_pass_or_empty_items(items),
                    Lll::Name(name) => name == DEFAULT_PASS_IDENTIFIER@,
                    _ => false,
                }
            } else {
                true
            },
    {
        proof {
            Expression::lemma_models_index(self.0@);
        }
        if self.0.len() <= 2 {
            return true;
        }
        match &self.0[2] {
            Expression::Instruction(Instruction::Pass) => true,
            Expression::Instruction(Instruction::Sequence(sequence)) => sequence.is_pass_or_empty(),
            Expression::Identifier(identifier) => {
                let chars = chars_of(identifier.as_str());
                let pass_identifier = chars_of(DEFAULT_PASS_IDENTIFIER);
                crate::text::equal_chars(chars.as_slice(), pass_identifier.as_slice())
            },
            Expression::Instruction(Instruction::Opcode(op, _)) => {
                proof {
                    lemma_opcode_tag_plain(*op);
                }
                false
            },
            _ => false,
        }
    }

    /// Checks whether the label represents a function with a return value:
    /// its variable list names both the return address and the return buffer.
    pub fn has_return_value(&self) -> (r: bool)
        ensures
            r == (self.operands().len() > 1 && match self.operands()[1] {
                Lll::Node(Tag::Var_List, variables) => has_variable(
                    variables,
                    VARIABLE_IDENTIFIER_RETURN_PC@,
                ) && has_variable(variables, VARIABLE_IDENTIFIER_RETURN_BUFFER@),
                _ => false,
            }),
    {
        proof {
            Expression::lemma_models_index(self.0@);
        }
        if self.0.len() <= 1 {
            return false;
        }
        let arguments = match &self.0[1] {
            Expression::Instruction(Instruction::Var_List(arguments)) => arguments,
            Expression::Instruction(Instruction::Opcode(op, _)) => {
                proof {
                    lemma_opcode_tag_plain(*op);
                }
                return false;
            },
            _ => return false,
        };
        let return_pc = chars_of(VARIABLE_IDENTIFIER_RETURN_PC);
        let return_buffer = chars_of(VARIABLE_IDENTIFIER_RETURN_BUFFER);
        Self::names_variable(arguments, return_pc.as_slice()) && Self::names_variable(
            arguments,
            return_buffer.as_slice(),
        )
    }

    /// Whether a variable list names the variable `name`.
    fn names_variable(arguments: &Vec<Expression>, name: &[char]) -> (r: bool)
        ensures
            r == has_variable(Expression::models(arguments@), name@),
    {
        proof {
            Expression::lemma_models_index(arguments@);
        }
        let mut i: usize = 0;
        while i < arguments.len()
            invariant
                i <= arguments.len(),
                Expression::models(arguments@).len() == arguments.len(),
                forall|j: int| 0 <= j < i ==> !is_name(#[trigger] Expression::models(arguments@)[j], name@),
            decreases arguments.len() - i,
        {
            proof {
                Expression::lemma_models_index(arguments@);
            }
            if is_identifier(&arguments[i], name) {
                assert(is_name(Expression::models(arguments@)[i as int], name@));
                return true;
            }
            i = i + 1;
        }
        false
    }

    /// Extracts the functions from the label body, the last operand.
    pub fn extract_functions(&mut self) -> (r: Result<StringMap<Expression>, String>)
        requires
            old(self).0.len() > 0,
            !(hoist(Expression::models(old(self).0@).last()) is Stuck),
        ensures
            final(self).0.len() == old(self).0.len(),
            match hoist(Expression::models(old(self).0@).last()) {
                Hoisted::Done(rest, found) => r matches Ok(functions) && Expression::models(final(self).0@)
                    == Expression::models(old(self).0@).update(old(self).0.len() - 1, rest)
                    && models_map(functions.map()) == found_map(found),
                Hoisted::Failed => r is Err && Expression::models(final(self).0@) == Expression::models(old(self).0@),
                Hoisted::Stuck => false,
            },
    {
        proof {
            Expression::lemma_models_index(self.0@);
        }
        let ghost before = self.0@;
        let last = self.0.len() - 1;
        let r = self.0[last].extract_functions();
        proof {
            Expression::lemma_models_update(before, last as int, self.0@[last as int]);
            assert(self.0@ == before.update(last as int, self.0@[last as int]));
        }
        r
    }

    /// The arguments the label block is declared with: the identifiers of
    /// its variable list but the return address.
    #[verifier::loop_isolation(false)]
    pub fn declared_arguments(&self) -> (r: Result<Vec<String>, String>)
        ensures
            match label_arguments(self.operands()) {
                Some(names) => r matches Ok(arguments) && arguments@.map_values(|a: String| a@) == names,
                None => r is Err,
            },
    {
        proof {
            Expression::lemma_models_index(self.0@);
        }
        if self.0.len() < 2 {
            return Err("Expected a variable list".to_owned());
        }
        let variables = match &self.0[1] {
            Expression::Instruction(Instruction::Var_List(variables)) => variables,
            Expression::Identifier(identifier) => {
                if same_text(identifier.as_str(), "var_list") {
                    return Ok(Vec::new());
                }
                return Err("Expected a variable list".to_owned());
            },
            Expression::Instruction(Instruction::Opcode(op, _)) => {
                proof {
                    lemma_opcode_tag_plain(*op);
                }
                return Err("Expected a variable list".to_owned());
            },
            _ => return Err("Expected a variable list".to_owned()),
        };
        let ghost models = Expression::models(variables@);
        proof {
            Expression::lemma_models_index(variables@);
        }
        let mut names: Vec<String> = Vec::new();
        let mut i: usize = 0;
        while i < variables.len()
            invariant
                i <= variables.len(),
                models == Expression::models(variables@),
                models.len() == variables.len(),
                forall|j: int| 0 <= j < variables.len() ==> #[trigger] models[j] == variables@[j].model(),
                all_names(models.take(i as int)),
                names@.map_values(|a: String| a@) == argument_names(models.take(i as int)),
            decreases variables.len() - i,
        {
            proof {
                assert(models.take(i + 1).drop_last() =~= models.take(i as int));
                assert(models.take(i + 1).last() == models[i as int]);
            }
            let name = match variables[i].try_into_identifier() {
                Ok(name) => name,
                Err(error) => {
                    proof {
                        assert(!all_names(models));
                    }
                    return Err(error);
                },
            };
            if !same_text(name.as_str(), VARIABLE_IDENTIFIER_RETURN_PC) {
                proof {
                    assert(names@.push(name).map_values(|a: String| a@) =~= names@.map_values(|a: String| a@).push(
                        name@,
                    ));
                }
                names.push(name);
            }
            proof {
                assert(all_names(models.take(i + 1)));
            }
            i = i + 1;
        }
        proof {
            assert(models.take(variables.len() as int) =~= models);
        }
        Ok(names)
    }
}

} // verus!
