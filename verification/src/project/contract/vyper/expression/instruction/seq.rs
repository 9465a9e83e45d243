//! The `seq` instruction.

use vstd::prelude::*;

use crate::project::contract::vyper::expression::functions::hoist_items;
use crate::project::contract::vyper::expression::functions::models_map;
use crate::project::contract::vyper::expression::functions::found_map;
use crate::project::contract::vyper::expression::functions::HoistedItems;
use crate::project::contract::vyper::expression::functions::is_function_name;
use crate::project::contract::vyper::expression::instruction::label::Label;
use crate::project::contract::vyper::expression::instruction::ret::Return;
use crate::project::contract::vyper::expression::instruction::revert::Revert;
use crate::project::contract::vyper::expression::instruction::ret::return_default;
use crate::project::contract::vyper::expression::instruction::revert::revert_default;
use crate::project::contract::vyper::expression::instruction::Instruction;
use crate::project::contract::vyper::expression::is_pass;
use crate::project::contract::vyper::expression::pass;
use crate::project::contract::vyper::expression::tag::lemma_opcode_tag_plain;
use crate::project::contract::vyper::expression::tag::opcode_to_tag;
use crate::project::contract::vyper::expression::tag::Tag;
use crate::project::contract::vyper::expression::Expression;
use crate::project::contract::vyper::expression::Lll;
use crate::string_map::StringMap;

verus! {

broadcast use {vstd::std_specs::vec::group_vec_axioms, lemma_opcode_tag_plain};

/// The `seq` instruction.
///
/// This instruction contains a lot of methods to adjust the Vyper LLL structure to that of our
/// smart contract architecture or the structure of LLVM IR.
/// Among the methods there are tools of extracting the runtime code from the deploy code's
/// return statement and some logic of hoisting the contract methods to the upper levels.
#[derive(Debug)]
pub struct SeqInstruction(pub Vec<Expression>);

/// Whether a sequence is empty or holds a single `pass`.
pub open spec fn is_pass_or_empty_items(items: Seq<Lll>) -> bool {
    items.len() == 0 || (items.len() == 1 && items[0] == pass())
}

/// Whether a tree ends the code: `return`, `revert`, `stop` or `invalid`.
pub open spec fn is_terminator(e: Lll) -> bool {
    e is Node && (e->Node_0 == Tag::RETURN || e->Node_0 == Tag::REVERT || e->Node_0 == Tag::STOP
        || e->Node_0 == Tag::INVALID)
}

/// Whether an element of a sequence ends the code.
pub open spec fn has_terminator(items: Seq<Lll>) -> bool {
    exists|i: int| 0 <= i < items.len() && #[trigger] is_terminator(items[i])
}

/// The deploy code normalized: a `return` of no data is appended when no
/// element of the code is a terminator.
pub open spec fn normalized_deploy_code(items: Seq<Lll>) -> Seq<Lll> {
    if has_terminator(items) {
        items
    } else {
        items.push(return_default())
    }
}

/// The runtime code normalized: a `revert` of no data is appended when no
/// element of the code is a terminator.
pub open spec fn normalized_runtime_code(items: Seq<Lll>) -> Seq<Lll> {
    if has_terminator(items) {
        items
    } else {
        items.push(revert_default())
    }
}

/// Whether an expression ends the code.
pub fn ends_code(e: &Expression) -> (r: bool)
    ensures
        r == is_terminator(e.model()),
{
    match e {
        Expression::Instruction(Instruction::RETURN(_)) => true,
        Expression::Instruction(Instruction::REVERT(_)) => true,
        Expression::Instruction(Instruction::Opcode(op, _)) => {
            let tag = opcode_to_tag(*op);
            tag == Tag::STOP || tag == Tag::INVALID
        },
        _ => false,
    }
}

/// Whether an element of the expressions ends the code.
fn holds_terminator(items: &Vec<Expression>) -> (r: bool)
    ensures
        r == has_terminator(Expression::models(items@)),
{
    proof {
        Expression::lemma_models_index(items@);
    }
    let mut i: usize = 0;
    while i < items.len()
        invariant
            i <= items.len(),
            Expression::models(items@).len() == items.len(),
            forall|k: int| 0 <= k < items.len() ==> Expression::models(items@)[k] == (#[trigger] items@[k]).model(),
            forall|k: int| 0 <= k < i ==> !is_terminator(#[trigger] Expression::models(items@)[k]),
        decreases items.len() - i,
    {
        if ends_code(&items[i]) {
            proof {
                assert(is_terminator(Expression::models(items@)[i as int]));
            }
            return true;
        }
        i = i + 1;
    }
    false
}

/// The runtime code found in deploy code, and the immutables size: `None`
/// when the tree is neither a `seq` nor a `deploy` with a `seq` operand.
///
/// The search reaches into nested sequences, element by element, and stops
/// at the first `deploy` whose runtime code is a `seq`.
pub open spec fn runtime_code(e: Lll) -> Option<Option<(Seq<Lll>, Lll)>>
    decreases e,
{
    match e {
        Lll::Node(Tag::Sequence, items) => Some(
            match runtime_code_items(items) {
                Some((code, size)) => Some((normalized_runtime_code(code), size)),
                None => None,
            },
        ),
        Lll::Node(Tag::Deploy, operands) => if operands.len() == 3 && operands[1] is Node
            && operands[1]->Node_0 == Tag::Sequence {
            Some(Some((normalized_runtime_code(operands[1]->Node_1), operands[2])))
        } else {
            None
        },
        _ => None,
    }
}

/// The runtime code found in the first element of a sequence that holds one.
pub open spec fn runtime_code_items(items: Seq<Lll>) -> Option<(Seq<Lll>, Lll)>
    decreases items,
{
    if items.len() == 0 {
        None
    } else {
        match runtime_code(items[0]) {
            Some(Some(found)) => Some(found),
            _ => runtime_code_items(items.drop_first()),
        }
    }
}

/// Whether a tree is a label instruction.
pub open spec fn is_label(e: Lll) -> bool {
    e is Node && e->Node_0 == Tag::Label
}

impl SeqInstruction {
    /// The trees of the sequence.
    pub open spec fn items(&self) -> Seq<Lll> {
        Expression::models(self.0@)
    }

    /// An empty sequence.
    pub fn new() -> (r: Self)
        ensures
            r.items() == Seq::<Lll>::empty(),
    {
        let r = SeqInstruction(Vec::new());
        assert(r.items() =~= Seq::<Lll>::empty());
        r
    }

    /// Extracts the runtime code expression from the deploy code.
    pub fn extract_runtime_code(&self) -> (r: Result<Option<(SeqInstruction, Expression)>, String>)
        ensures
            match runtime_code_items(self.items()) {
                Some((code, size)) => r matches Ok(Some((sequence, immutables_size)))
                    && sequence.items() == code && immutables_size.model() == size,
                None => r matches Ok(None),
            },
        decreases self.0,
    {
        let ghost all = self.items();
        let ghost n = self.0@.len();
        proof {
            Expression::lemma_models_index(self.0@);
            assert(all.subrange(0, n as int) =~= all);
        }
        let mut i: usize = 0;
        while i < self.0.len()
            invariant
                all == self.items(),
                n == self.0@.len(),
                all.len() == n,
                i <= n,
                runtime_code_items(all) == runtime_code_items(all.subrange(i as int, n as int)),
            decreases n - i,
        {
            proof {
                Expression::lemma_models_index(self.0@);
                assert(all.subrange(i as int, n as int)[0] == self.0@[i as int].model());
                assert(all.subrange(i as int, n as int).drop_first() =~= all.subrange(i + 1, n as int));
                assert(decreases_to!(self.0 => self.0@));
                assert(decreases_to!(self.0@ => self.0@[i as int]));
            }
            if let Ok(Some(result)) = self.0[i].extract_runtime_code() {
                return Ok(Some(result));
            }
            i = i + 1;
        }
        proof {
            assert(all.subrange(n as int, n as int) =~= Seq::<Lll>::empty());
        }
        Ok(None)
    }

    /// Checks whether the sequence only contains a single pass.
    pub fn is_pass_or_empty(&self) -> (r: bool)
        ensures
            r == is_pass_or_empty_items(self.items()),
    {
        proof {
            Expression::lemma_models_index(self.0@);
        }
        if self.0.len() > 1 {
            return false;
        }
        if self.0.len() == 0 {
            return true;
        }
        is_pass(&self.0[0])
    }

    /// Drains the expression list and splits it into labels and the rest.
    pub fn drain_and_split(&mut self) -> (r: (Vec<Label>, Vec<Expression>))
        ensures
            final(self).0@.len() == 0,
            Expression::models(r.1@) == old(self).items().filter(|e: Lll| !is_label(e)),
            r.0@.len() == old(self).items().filter(|e: Lll| is_label(e)).len(),
            forall|i: int| 0 <= i < r.0@.len() ==> Lll::Node(Tag::Label, #[trigger] r.0@[i].operands())
                == old(self).items().filter(|e: Lll| is_label(e))[i],
    {
        let mut labels: Vec<Label> = Vec::new();
        let mut expressions: Vec<Expression> = Vec::new();
        let mut items: Vec<Expression> = Vec::new();
        std::mem::swap(&mut items, &mut self.0);
        let ghost all = Expression::models(items@);
        let ghost n = items@.len();
        let length = items.len();
        proof {
            Expression::lemma_models_index(items@);
            assert(all.take(0).filter(|e: Lll| !is_label(e)) =~= Seq::empty());
            assert(all.take(0).filter(|e: Lll| is_label(e)) =~= Seq::empty());
            assert(Expression::models(expressions@) =~= Seq::empty());
        }
        let mut index: usize = 0;
        while items.len() > 0
            invariant
                n == index + items@.len(),
                n == length,
                all.len() == n,
                Expression::models(items@) == all.skip(index as int),
                Expression::models(expressions@) == all.take(index as int).filter(|e: Lll| !is_label(e)),
                labels@.len() == all.take(index as int).filter(|e: Lll| is_label(e)).len(),
                forall|i: int| 0 <= i < labels@.len() ==> Lll::Node(Tag::Label, #[trigger] labels@[i].operands())
                    == all.take(index as int).filter(|e: Lll| is_label(e))[i],
            decreases items@.len(),
        {
            let ghost rest = items@;
            let expression = items.remove(0);
            proof {
                Expression::lemma_models_index(rest);
                Expression::lemma_models_remove(rest, 0);
                assert(rest.remove(0) =~= rest.drop_first());
                assert(all.skip(index as int)[0] == expression.model());
                assert(all.take(index + 1) =~= all.take(index as int).push(expression.model()));
                assert(all.skip(index as int).drop_first() =~= all.skip(index + 1));
                assert(Expression::models(rest).remove(0) =~= Expression::models(rest).drop_first());
            }
            match expression {
                Expression::Instruction(Instruction::Label(label)) => {
                    proof {
                        reveal_with_fuel(Seq::filter, 1);
                        assert(all.take(index + 1).drop_last() =~= all.take(index as int));
                    }
                    labels.push(label);
                },
                other => {
                    proof {
                        reveal_with_fuel(Seq::filter, 1);
                        assert(all.take(index + 1).drop_last() =~= all.take(index as int));
                        Expression::lemma_models_push(expressions@, other);
                    }
                    expressions.push(other);
                },
            }
            index = index + 1;
        }
        proof {
            assert(all.take(n as int) =~= all);
        }
        (labels, expressions)
    }

    /// Normalizes the deploy code by inserting an empty return.
    ///
    /// If the deploy code does not have a terminator, a normal return is inserted.
    pub fn normalize_deploy_code(&mut self)
        ensures
            final(self).items() == normalized_deploy_code(old(self).items()),
    {
        if !holds_terminator(&self.0) {
            let ghost before = self.0@;
            let terminator = Expression::Instruction(Instruction::RETURN(Return::default()));
            proof {
                Expression::lemma_models_push(before, terminator);
            }
            self.0.push(terminator);
        }
    }

    /// Normalizes the runtime code by inserting an empty revert.
    ///
    /// If the runtime code does not have a terminator, a revert is inserted.
    pub fn normalize_runtime_code(&mut self)
        ensures
            final(self).items() == normalized_runtime_code(old(self).items()),
    {
        if !holds_terminator(&self.0) {
            let ghost before = self.0@;
            let terminator = Expression::Instruction(Instruction::REVERT(Revert::default()));
            proof {
                Expression::lemma_models_push(before, terminator);
            }
            self.0.push(terminator);
        }
    }

    /// Whether the sequence is a function entry block.
    pub fn is_function(&self) -> (r: Result<bool, String>)
        requires
            self.items().len() > 0 && is_label(self.items()[0]) ==> self.items()[0]->Node_1.len() > 0,
        ensures
            if self.items().len() > 0 && is_label(self.items()[0]) {
                match self.items()[0]->Node_1[0] {
                    Lll::Name(name) => r == Ok::<bool, String>(is_function_name(name)),
                    _ => r is Err,
                }
            } else {
                r == Ok::<bool, String>(false)
            },
    {
        proof {
            Expression::lemma_models_index(self.0@);
        }
        if self.0.len() == 0 {
            return Ok(false);
        }
        match &self.0[0] {
            Expression::Instruction(Instruction::Label(label)) => label.is_function_entry(),
            _ => Ok(false),
        }
    }

    /// Returns the function name.
    pub fn function_name(&self) -> (r: Result<String, String>)
        requires
            self.items().len() > 0 && is_label(self.items()[0]) ==> self.items()[0]->Node_1.len() > 0,
        ensures
            if self.items().len() > 0 && is_label(self.items()[0]) {
                match self.items()[0]->Node_1[0] {
                    Lll::Name(name) => r matches Ok(label) && label@ == name,
                    _ => r is Err,
                }
            } else {
                r is Err
            },
    {
        proof {
            Expression::lemma_models_index(self.0@);
        }
        if self.0.len() == 0 {
            return Err("Expected a function sequence".to_owned());
        }
        match &self.0[0] {
            Expression::Instruction(Instruction::Label(label)) => label.name(),
            _ => Err("Expected a function sequence".to_owned()),
        }
    }

    /// Extracts the functions from the deploy or runtime code.
    ///
    /// On success, the functions are taken out of the sequence and returned
    /// by name; when a function label's name is not an identifier, the
    /// sequence is left as it was and an error is returned.
    pub fn extract_functions(&mut self) -> (r: Result<StringMap<Expression>, String>)
        requires
            !(hoist_items(old(self).items()) is Stuck),
        ensures
            match hoist_items(old(self).items()) {
                HoistedItems::Done(rest, found) => r matches Ok(functions) && final(self).items() == rest
                    && models_map(functions.map()) == found_map(found),
                HoistedItems::Failed => r is Err && final(self).items() == old(self).items(),
                HoistedItems::Stuck => false,
            },
    {
        let mut items: Vec<Expression> = Vec::new();
        std::mem::swap(&mut items, &mut self.0);
        let mut expression = Expression::Instruction(Instruction::Sequence(SeqInstruction(items)));
        let r = expression.extract_functions();
        match expression {
            Expression::Instruction(Instruction::Sequence(sequence)) => {
                self.0 = sequence.0;
            },
            _ => {
                proof {
                    assert(false);
                }
            },
        }
        r
    }
}

} // verus!
