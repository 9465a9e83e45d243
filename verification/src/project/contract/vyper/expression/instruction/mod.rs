//! The LLL IR instruction.

pub mod assertion;
pub mod deploy;
pub mod exit_to;
pub mod goto;
pub mod if_else;
pub mod label;
pub mod repeat;
pub mod ret;
pub mod revert;
pub mod seq;
pub mod set;
pub mod with;

use vstd::prelude::*;
use vstd::string::StringExecFns;

use crate::constants::EXTCODESIZE_BLUEPRINT_ARGUMENT_NAME;
use crate::json::json_text;
use crate::json::JsonValue;
use crate::text::chars_of;
use crate::text::string_of;
use crate::project::contract::vyper::expression::tag::Tag;
use crate::text::same_text;
use crate::project::contract::vyper::CodeSegment;
use crate::project::contract::vyper::expression::functions::classify;
use crate::project::contract::vyper::expression::functions::found_map;
use crate::project::contract::vyper::expression::functions::hoist;
use crate::project::contract::vyper::expression::functions::models_map;
use crate::project::contract::vyper::expression::functions::sequence_label;
use crate::project::contract::vyper::expression::functions::Entry;
use crate::project::contract::vyper::expression::functions::Hoisted;
use crate::project::contract::vyper::expression::tag::lemma_opcode_tag_plain;
use crate::project::contract::vyper::expression::Lll;
use crate::string_map::StringMap;
use crate::project::contract::vyper::expression::tag::Opcode;
use crate::project::contract::vyper::expression::Expression;

use self::assertion::Assert;
use self::deploy::Deploy;
use self::exit_to::ExitTo;
use self::goto::Goto;
use self::if_else::If;
use self::label::Label;
use self::repeat::Repeat;
use self::ret::Return;
use self::revert::Revert;
use self::seq::SeqInstruction;
use self::set::SetInstruction;
use self::with::With;

verus! {

broadcast use lemma_opcode_tag_plain;

/// The LLL IR instruction.
///
/// The instructions that the compiler restructures have a variant of their
/// own; the plain EVM opcodes and pseudo opcodes are held by their tag and
/// their operands.
#[allow(non_camel_case_types)]
#[allow(clippy::upper_case_acronyms)]
#[derive(Debug)]
pub enum Instruction {
    /// The LLL IR `with` expression.
    With(With),
    /// The LLL IR `set` expression.
    Assign(SetInstruction),
    /// The LLL IR `seq` expression.
    Sequence(SeqInstruction),
    /// The LLL IR `if` statement.
    If(If),
    /// The LLL IR `repeat` statement.
    Repeat(Repeat),
    /// The LLL IR `goto` instruction.
    GoTo(Goto),
    /// The LLL IR `exit_to` instruction.
    Exit_To(ExitTo),
    /// The LLL IR `label` instruction.
    Label(Label),
    /// The LLL IR `cleanup_repeat` instruction.
    Cleanup_Repeat,
    /// The LLL IR `break` instruction.
    Break,
    /// The LLL IR `continue` instruction.
    Continue,
    /// The LLL IR `pass` instruction.
    Pass,
    /// The LLL IR `deploy` instruction.
    Deploy(Deploy),
    /// The LLL IR `assert` pseudo opcode.
    Assert(Assert),
    /// The LLL IR `assert_unreachable` pseudo opcode.
    Assert_Unreachable(Assert),
    /// The LLL IR `var_list` instruction.
    Var_List(Vec<Expression>),
    /// The EVM `RETURN` opcode.
    RETURN(Return),
    /// The EVM `REVERT` opcode.
    REVERT(Revert),
    /// Any other EVM opcode or LLL IR pseudo opcode, with its operands.
    Opcode(Opcode, Vec<Expression>),
    /// The LLL unknown instruction trap.
    Unknown(JsonValue),
}

impl Instruction {
    /// Extracts the functions from the deploy or runtime code.
    ///
    /// On success, the functions are taken out of the instruction and
    /// returned by name; when a function label's name is not an identifier,
    /// the instruction is left as it was and an error is returned.
    pub fn extract_functions(&mut self) -> (r: Result<StringMap<Expression>, String>)
        requires
            !(hoist(Expression::instruction_model(old(self))) is Stuck),
        ensures
            match hoist(Expression::instruction_model(old(self))) {
                Hoisted::Done(rest, found) => r matches Ok(functions)
                    && Expression::instruction_model(final(self)) == rest
                    && models_map(functions.map()) == found_map(found),
                Hoisted::Failed => r is Err && *final(self) == *old(self),
                Hoisted::Stuck => false,
            },
    {
        let mut instruction = Instruction::Pass;
        std::mem::swap(&mut instruction, self);
        let mut expression = Expression::Instruction(instruction);
        let r = expression.extract_functions();
        match expression {
            Expression::Instruction(instruction) => {
                *self = instruction;
            },
            _ => {
                proof {
                    assert(false);
                }
            },
        }
        r
    }

    /// Whether the instruction is a function entry block.
    pub fn is_function(&self) -> (r: Result<bool, String>)
        requires
            !(classify(Expression::instruction_model(self)) is Stuck),
        ensures
            match classify(Expression::instruction_model(self)) {
                Entry::Function(_) => r == Ok::<bool, String>(true),
                Entry::Other => r == Ok::<bool, String>(false),
                Entry::Failed => r is Err,
                Entry::Stuck => false,
            },
    {
        match self {
            Instruction::Sequence(sequence) => sequence.is_function(),
            _ => Ok(false),
        }
    }

    /// Returns the function name.
    pub fn function_name(&self) -> (r: Result<String, String>)
        requires
            sequence_label(Expression::instruction_model(self)) matches Some(label) ==> label.len() > 0,
        ensures
            match sequence_label(Expression::instruction_model(self)) {
                Some(label) => match label[0] {
                    Lll::Name(name) => r matches Ok(function) && function@ == name,
                    _ => r is Err,
                },
                None => r is Err,
            },
    {
        match self {
            Instruction::Sequence(sequence) => sequence.function_name(),
            _ => Err("Expected a function sequence".to_owned()),
        }
    }
}

/// The text an operand stands for where it is an identifier or an integer
/// literal.
pub open spec fn original_text(e: Lll) -> Option<Seq<char>> {
    match e {
        Lll::Name(name) => Some(name),
        Lll::Literal(text) => Some(text),
        _ => None,
    }
}

/// Whether a tree is the code size of the blueprint a contract is created
/// from: `extcodesize` of the `create_target` variable.
pub open spec fn is_blueprint_code_size(e: Lll) -> bool {
    match e {
        Lll::Node(Tag::EXTCODESIZE, operands) => operands.len() > 0 && original_text(operands[0]) == Some(
            EXTCODESIZE_BLUEPRINT_ARGUMENT_NAME@,
        ),
        _ => false,
    }
}

/// Why code generation refuses a tree, where it does in itself: the
/// instructions EraVM has no counterpart of, the code copy in runtime code,
/// the call data, the code size, the code copy and the immutables where the
/// code segment is not known, the external code copy of anything but the
/// blueprint being created, and the `unknown` trap with its value.
pub open spec fn refusal_of(e: Lll, code: Option<CodeSegment>) -> Option<Seq<char>> {
    match e {
        Lll::Node(tag, operands) => if tag == Tag::CALLCODE {
            Some("The `CALLCODE` instruction is not supported"@)
        } else if tag == Tag::PC {
            Some("The `PC` instruction is not supported"@)
        } else if tag == Tag::SELFDESTRUCT {
            Some("The `SELFDESTRUCT` instruction is not supported"@)
        } else if tag == Tag::CODECOPY {
            match code {
                None => Some("The contract code part type is undefined"@),
                Some(CodeSegment::Runtime) => Some("The `CODECOPY` instruction is not supported in the runtime code"@),
                Some(CodeSegment::Deploy) => None,
            }
        } else if (tag == Tag::CALLDATALOAD || tag == Tag::CALLDATASIZE || tag == Tag::CALLDATACOPY || tag
            == Tag::CODESIZE) && code is None {
            Some("The contract code part type is undefined"@)
        } else if (tag == Tag::DLOAD || tag == Tag::DLOADBYTES) && code is None {
            Some("Immutables are not available if the contract part is undefined"@)
        } else if tag == Tag::EXTCODECOPY && !(operands.len() > 0 && original_text(operands[0]) == Some(
            EXTCODESIZE_BLUEPRINT_ARGUMENT_NAME@,
        )) {
            Some("The `EXTCODECOPY` instruction is only supported for the `create_from_blueprint built-in."@)
        } else {
            None
        },
        Lll::UnknownInstruction(value) => Some("Unknown LLL instruction: "@ + json_text(value)),
        _ => None,
    }
}

impl Instruction {
    /// Why code generation refuses the instruction in the code segment
    /// `code`, if it does in itself; the `unknown` trap is always refused.
    pub fn refusal(&self, code: Option<CodeSegment>) -> (r: Option<String>)
        ensures
            match refusal_of(Expression::instruction_model(self), code) {
                Some(text) => r matches Some(message) && message@ == text,
                None => r is None,
            },
    {
        match self {
            Instruction::Opcode(op, operands) => {
                let tag = crate::project::contract::vyper::expression::tag::opcode_to_tag(*op);
                proof {
                    Expression::lemma_models_index(operands@);
                }
                if tag == Tag::CALLCODE {
                    Some(String::from_str("The `CALLCODE` instruction is not supported"))
                } else if tag == Tag::PC {
                    Some(String::from_str("The `PC` instruction is not supported"))
                } else if tag == Tag::SELFDESTRUCT {
                    Some(String::from_str("The `SELFDESTRUCT` instruction is not supported"))
                } else if tag == Tag::CODECOPY {
                    match code {
                        None => Some(String::from_str("The contract code part type is undefined")),
                        Some(CodeSegment::Runtime) => Some(
                            String::from_str("The `CODECOPY` instruction is not supported in the runtime code"),
                        ),
                        Some(CodeSegment::Deploy) => None,
                    }
                } else if (tag == Tag::CALLDATALOAD || tag == Tag::CALLDATASIZE || tag == Tag::CALLDATACOPY || tag
                    == Tag::CODESIZE) && code.is_none() {
                    Some(String::from_str("The contract code part type is undefined"))
                } else if (tag == Tag::DLOAD || tag == Tag::DLOADBYTES) && code.is_none() {
                    Some(String::from_str("Immutables are not available if the contract part is undefined"))
                } else if tag == Tag::EXTCODECOPY {
                    let blueprint = operands.len() > 0 && match &operands[0] {
                        Expression::Identifier(name) => same_text(name.as_str(), EXTCODESIZE_BLUEPRINT_ARGUMENT_NAME),
                        Expression::IntegerLiteral(text) => same_text(text.as_str(), EXTCODESIZE_BLUEPRINT_ARGUMENT_NAME),
                        Expression::Instruction(Instruction::Opcode(inner, _)) => {
                            proof {
                                lemma_opcode_tag_plain(*inner);
                            }
                            false
                        },
                        _ => false,
                    };
                    if blueprint {
                        None
                    } else {
                        Some(
                            String::from_str(
                                "The `EXTCODECOPY` instruction is only supported for the `create_from_blueprint built-in.",
                            ),
                        )
                    }
                } else {
                    None
                }
            },
            Instruction::Unknown(value) => {
                let mut text = chars_of("Unknown LLL instruction: ");
                value.push_text(&mut text);
                Some(string_of(text.as_slice()))
            },
            _ => None,
        }
    }

    /// Checks whether a subtraction is one of a code offset from the code
    /// size of the blueprint being created, where the code size is taken as
    /// it is.
    pub fn check_sub_code_offset(arguments: &Vec<Expression>) -> (r: bool)
        requires
            arguments.len() > 0,
        ensures
            r == is_blueprint_code_size(Expression::models(arguments@)[0]),
    {
        proof {
            Expression::lemma_models_index(arguments@);
        }
        match &arguments[0] {
            Expression::Instruction(Instruction::Opcode(op, operands)) => {
                if !matches!(op, Opcode::EXTCODESIZE) || operands.len() == 0 {
                    return false;
                }
                proof {
                    Expression::lemma_models_index(operands@);
                }
                match &operands[0] {
                    Expression::Identifier(name) => same_text(name.as_str(), EXTCODESIZE_BLUEPRINT_ARGUMENT_NAME),
                    Expression::IntegerLiteral(text) => same_text(text.as_str(), EXTCODESIZE_BLUEPRINT_ARGUMENT_NAME),
                    Expression::Instruction(Instruction::Opcode(inner, _)) => {
                        proof {
                            lemma_opcode_tag_plain(*inner);
                        }
                        false
                    },
                    _ => false,
                }
            },
            _ => false,
        }
    }
}

} // verus!
