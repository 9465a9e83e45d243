//! Finding the contract's functions in the deploy and runtime code.
//!
//! `vyper` nests the bodies of the contract functions inside the code that
//! dispatches to them. Each function is a `seq` whose first element is a
//! label named `external...` or `internal...`. The compiler lifts these
//! sequences out of the code, so that each becomes a function of its own.

use vstd::prelude::*;

use crate::constants::FUNCTION_PREFIX_EXTERNAL;
use crate::constants::FUNCTION_PREFIX_INTERNAL;
use crate::string_map::StringMap;
use crate::text::chars_of;
use crate::text::is_prefix;
use crate::text::starts_with;

use super::instruction::Instruction;
use super::tag::Tag;
use super::tag::lemma_opcode_tag_plain;
use super::Expression;
use super::Lll;

verus! {

broadcast use {vstd::std_specs::vec::group_vec_axioms, lemma_opcode_tag_plain};

/// How an element of a sequence is seen by the function search.
pub enum Entry {
    /// A function: a sequence opened by a function label of this name.
    Function(Seq<char>),
    /// Anything else, which is searched in turn.
    Other,
    /// A sequence opened by a label whose name is not an identifier.
    Failed,
    /// A sequence opened by an empty label.
    Stuck,
}

/// Whether a label name names a function.
pub open spec fn is_function_name(name: Seq<char>) -> bool {
    is_prefix(FUNCTION_PREFIX_EXTERNAL@, name) || is_prefix(FUNCTION_PREFIX_INTERNAL@, name)
}

/// How an element of a sequence is seen by the function search.
pub open spec fn classify(e: Lll) -> Entry {
    match e {
        Lll::Node(Tag::Sequence, items) => if items.len() == 0 {
            Entry::Other
        } else {
            match items[0] {
                Lll::Node(Tag::Label, label) => if label.len() == 0 {
                    Entry::Stuck
                } else {
                    match label[0] {
                        Lll::Name(name) => if is_function_name(name) {
                            Entry::Function(name)
                        } else {
                            Entry::Other
                        },
                        _ => Entry::Failed,
                    }
                },
                _ => Entry::Other,
            }
        },
        _ => Entry::Other,
    }
}

/// The operands of the label that opens a sequence, if the tree is a
/// sequence opened by a label.
pub open spec fn sequence_label(e: Lll) -> Option<Seq<Lll>> {
    match e {
        Lll::Node(Tag::Sequence, items) => if items.len() > 0 {
            match items[0] {
                Lll::Node(Tag::Label, label) => Some(label),
                _ => None,
            }
        } else {
            None
        },
        _ => None,
    }
}

/// The outcome of the function search in a tree.
pub enum Hoisted {
    /// The tree without the functions, and the functions found, by name,
    /// in the order they were found.
    Done(Lll, Seq<(Seq<char>, Lll)>),
    /// A function label's name is not an identifier.
    Failed,
    /// An instruction lacks an operand that the search reads.
    Stuck,
}

/// The outcome of the function search in a sequence of trees.
pub enum HoistedItems {
    /// The trees left, and the functions found, in order.
    Done(Seq<Lll>, Seq<(Seq<char>, Lll)>),
    /// A function label's name is not an identifier.
    Failed,
    /// An instruction lacks an operand that the search reads.
    Stuck,
}

/// The function search in a tree: sequences are searched element by
/// element; `with` bodies, both branches of `if`, and the last operand of
/// `repeat` and `label` are searched; nothing else is.
pub open spec fn hoist(e: Lll) -> Hoisted
    decreases e,
{
    match e {
        Lll::Node(tag, ops) => if tag == Tag::Sequence {
            match hoist_items(ops) {
                HoistedItems::Done(rest, found) => Hoisted::Done(Lll::Node(tag, rest), found),
                HoistedItems::Failed => Hoisted::Failed,
                HoistedItems::Stuck => Hoisted::Stuck,
            }
        } else if tag == Tag::With {
            if ops.len() < 3 {
                Hoisted::Stuck
            } else {
                match hoist(ops[2]) {
                    Hoisted::Done(body, found) => Hoisted::Done(Lll::Node(tag, ops.update(2, body)), found),
                    other => other,
                }
            }
        } else if tag == Tag::If {
            if ops.len() < 2 {
                Hoisted::Stuck
            } else {
                match hoist(ops[1]) {
                    Hoisted::Done(main, found) => if ops.len() > 2 {
                        match hoist(ops[2]) {
                            Hoisted::Done(other, found_else) => Hoisted::Done(
                                Lll::Node(tag, ops.update(1, main).update(2, other)),
                                found + found_else,
                            ),
                            other => other,
                        }
                    } else {
                        Hoisted::Done(Lll::Node(tag, ops.update(1, main)), found)
                    },
                    other => other,
                }
            }
        } else if tag == Tag::Repeat || tag == Tag::Label {
            if ops.len() == 0 {
                Hoisted::Stuck
            } else {
                match hoist(ops.last()) {
                    Hoisted::Done(body, found) => Hoisted::Done(
                        Lll::Node(tag, ops.update(ops.len() - 1, body)),
                        found,
                    ),
                    other => other,
                }
            }
        } else {
            Hoisted::Done(e, Seq::empty())
        },
        _ => Hoisted::Done(e, Seq::empty()),
    }
}

/// The function search in a sequence: a function is taken out whole and
/// its body is not searched; any other element is searched in turn.
pub open spec fn hoist_items(items: Seq<Lll>) -> HoistedItems
    decreases items,
{
    if items.len() == 0 {
        HoistedItems::Done(Seq::empty(), Seq::empty())
    } else {
        match classify(items[0]) {
            Entry::Stuck => HoistedItems::Stuck,
            Entry::Failed => HoistedItems::Failed,
            Entry::Function(name) => match hoist_items(items.drop_first()) {
                HoistedItems::Done(rest, found) => HoistedItems::Done(
                    rest,
                    seq![(name, items[0])] + found,
                ),
                other => other,
            },
            Entry::Other => match hoist(items[0]) {
                Hoisted::Done(first, found) => match hoist_items(items.drop_first()) {
                    HoistedItems::Done(rest, found_rest) => HoistedItems::Done(
                        seq![first] + rest,
                        found + found_rest,
                    ),
                    other => other,
                },
                Hoisted::Failed => HoistedItems::Failed,
                Hoisted::Stuck => HoistedItems::Stuck,
            },
        }
    }
}

/// Whether every find is a sequence opened by the label of the name it is
/// found under.
pub open spec fn all_functions(found: Seq<(Seq<char>, Lll)>) -> bool {
    forall|i: int| 0 <= i < found.len() ==> classify((#[trigger] found[i]).1) == Entry::Function(found[i].0)
}

/// Finds joined are all functions where each part is.
proof fn lemma_all_functions_append(a: Seq<(Seq<char>, Lll)>, b: Seq<(Seq<char>, Lll)>)
    requires
        all_functions(a),
        all_functions(b),
    ensures
        all_functions(a + b),
{
    assert forall|i: int| 0 <= i < (a + b).len() implies classify((#[trigger] (a + b)[i]).1) == Entry::Function(
        (a + b)[i].0,
    ) by {
        if i < a.len() {
            assert((a + b)[i] == a[i]);
        } else {
            assert((a + b)[i] == b[i - a.len()]);
        }
    }
}

/// Whatever the function search finds in a tree is a function: a sequence
/// opened by a label of the name it is found under.
pub proof fn lemma_hoist_finds_functions(e: Lll)
    ensures
        hoist(e) matches Hoisted::Done(_, found) ==> all_functions(found),
    decreases e,
{
    match e {
        Lll::Node(tag, ops) => {
            if tag == Tag::Sequence {
                lemma_hoist_items_finds_functions(ops);
            } else if tag == Tag::With {
                if ops.len() >= 3 {
                    lemma_hoist_finds_functions(ops[2]);
                }
            } else if tag == Tag::If {
                if ops.len() >= 2 {
                    lemma_hoist_finds_functions(ops[1]);
                    if ops.len() > 2 {
                        lemma_hoist_finds_functions(ops[2]);
                        if let (Hoisted::Done(_, found), Hoisted::Done(_, found_else)) = (hoist(ops[1]), hoist(ops[2])) {
                            lemma_all_functions_append(found, found_else);
                        }
                    }
                }
            } else if tag == Tag::Repeat || tag == Tag::Label {
                if ops.len() > 0 {
                    lemma_hoist_finds_functions(ops.last());
                }
            }
        },
        _ => {},
    }
}

/// Whatever the function search finds in a sequence of trees is a function.
pub proof fn lemma_hoist_items_finds_functions(items: Seq<Lll>)
    ensures
        hoist_items(items) matches HoistedItems::Done(_, found) ==> all_functions(found),
    decreases items,
{
    if items.len() > 0 {
        lemma_hoist_items_finds_functions(items.drop_first());
        match classify(items[0]) {
            Entry::Function(name) => {
                if let HoistedItems::Done(_, found) = hoist_items(items.drop_first()) {
                    lemma_all_functions_append(seq![(name, items[0])], found);
                }
            },
            Entry::Other => {
                lemma_hoist_finds_functions(items[0]);
                if let (Hoisted::Done(_, found), HoistedItems::Done(_, found_rest)) = (
                    hoist(items[0]),
                    hoist_items(items.drop_first()),
                ) {
                    lemma_all_functions_append(found, found_rest);
                }
            },
            _ => {},
        }
    }
}

/// The number of functions in the places the search looks: in a sequence,
/// each element that is a function counts once and its body is not looked
/// into, and each other element is looked into; in `with`, its body; in
/// `if`, both branches; in `repeat` and `label`, the last operand.
pub open spec fn function_count(e: Lll) -> nat
    decreases e,
{
    match e {
        Lll::Node(tag, ops) => if tag == Tag::Sequence {
            items_function_count(ops)
        } else if tag == Tag::With {
            if ops.len() >= 3 {
                function_count(ops[2])
            } else {
                0
            }
        } else if tag == Tag::If {
            (if ops.len() >= 2 {
                function_count(ops[1])
            } else {
                0
            }) + (if ops.len() >= 3 {
                function_count(ops[2])
            } else {
                0
            })
        } else if tag == Tag::Repeat || tag == Tag::Label {
            if ops.len() > 0 {
                function_count(ops.last())
            } else {
                0
            }
        } else {
            0
        },
        _ => 0,
    }
}

/// The number of functions in the places the search looks in a sequence.
pub open spec fn items_function_count(items: Seq<Lll>) -> nat
    decreases items,
{
    if items.len() == 0 {
        0
    } else {
        (if classify(items[0]) is Function {
            1
        } else {
            function_count(items[0])
        }) + items_function_count(items.drop_first())
    }
}

/// The number of nodes of a tree.
pub open spec fn tree_size(e: Lll) -> nat
    decreases e,
{
    match e {
        Lll::Node(_, ops) => 1 + items_size(ops),
        _ => 1,
    }
}

/// The number of nodes of a sequence of trees.
pub open spec fn items_size(items: Seq<Lll>) -> nat
    decreases items,
{
    if items.len() == 0 {
        0
    } else {
        tree_size(items[0]) + items_size(items.drop_first())
    }
}

/// The number of nodes of the trees found.
pub open spec fn found_size(found: Seq<(Seq<char>, Lll)>) -> nat
    decreases found.len(),
{
    if found.len() == 0 {
        0
    } else {
        tree_size(found[0].1) + found_size(found.drop_first())
    }
}

/// Replacing a tree of a sequence changes its size by the difference.
proof fn lemma_items_size_update(items: Seq<Lll>, i: int, x: Lll)
    requires
        0 <= i < items.len(),
    ensures
        items_size(items.update(i, x)) + tree_size(items[i]) == items_size(items) + tree_size(x),
    decreases items.len(),
{
    if i == 0 {
        assert(items.update(i, x).drop_first() =~= items.drop_first());
    } else {
        lemma_items_size_update(items.drop_first(), i - 1, x);
        assert(items.update(i, x).drop_first() =~= items.drop_first().update(i - 1, x));
    }
}

/// The size of finds joined is the sum of their sizes.
proof fn lemma_found_size_append(a: Seq<(Seq<char>, Lll)>, b: Seq<(Seq<char>, Lll)>)
    ensures
        found_size(a + b) == found_size(a) + found_size(b),
    decreases a.len(),
{
    if a.len() > 0 {
        lemma_found_size_append(a.drop_first(), b);
        assert((a + b).drop_first() =~= a.drop_first() + b);
        assert((a + b)[0] == a[0]);
    } else {
        assert(a + b =~= b);
    }
}

/// The function search finds every function in the places it looks, one
/// find for each, and takes out exactly what it finds: the nodes of the
/// tree left and of the functions found add up to those of the tree.
pub proof fn lemma_hoist_takes_every_function(e: Lll)
    ensures
        hoist(e) matches Hoisted::Done(rest, found) ==> {
            &&& found.len() == function_count(e)
            &&& tree_size(e) == tree_size(rest) + found_size(found)
        },
    decreases e,
{
    match e {
        Lll::Node(tag, ops) => {
            if tag == Tag::Sequence {
                lemma_hoist_items_takes_every_function(ops);
            } else if tag == Tag::With {
                if ops.len() >= 3 {
                    lemma_hoist_takes_every_function(ops[2]);
                    if let Hoisted::Done(body, found) = hoist(ops[2]) {
                        lemma_items_size_update(ops, 2, body);
                    }
                }
            } else if tag == Tag::If {
                if ops.len() >= 2 {
                    lemma_hoist_takes_every_function(ops[1]);
                    if let Hoisted::Done(main, found) = hoist(ops[1]) {
                        lemma_items_size_update(ops, 1, main);
                        if ops.len() > 2 {
                            lemma_hoist_takes_every_function(ops[2]);
                            if let Hoisted::Done(other, found_else) = hoist(ops[2]) {
                                lemma_items_size_update(ops.update(1, main), 2, other);
                                lemma_found_size_append(found, found_else);
                            }
                        }
                    }
                }
            } else if tag == Tag::Repeat || tag == Tag::Label {
                if ops.len() > 0 {
                    lemma_hoist_takes_every_function(ops.last());
                    if let Hoisted::Done(body, found) = hoist(ops.last()) {
                        lemma_items_size_update(ops, ops.len() - 1, body);
                    }
                }
            }
        },
        _ => {},
    }
}

/// The function search in a sequence finds every function in the places it
/// looks and takes out exactly what it finds.
pub proof fn lemma_hoist_items_takes_every_function(items: Seq<Lll>)
    ensures
        hoist_items(items) matches HoistedItems::Done(rest, found) ==> {
            &&& found.len() == items_function_count(items)
            &&& items_size(items) == items_size(rest) + found_size(found)
        },
    decreases items,
{
    if items.len() > 0 {
        lemma_hoist_items_takes_every_function(items.drop_first());
        match classify(items[0]) {
            Entry::Function(name) => {
                if let HoistedItems::Done(rest, found) = hoist_items(items.drop_first()) {
                    lemma_found_size_append(seq![(name, items[0])], found);
                    assert((seq![(name, items[0])]).drop_first() =~= Seq::<(Seq<char>, Lll)>::empty());
                }
            },
            Entry::Other => {
                lemma_hoist_takes_every_function(items[0]);
                if let (Hoisted::Done(first, found), HoistedItems::Done(rest, found_rest)) = (
                    hoist(items[0]),
                    hoist_items(items.drop_first()),
                ) {
                    lemma_found_size_append(found, found_rest);
                    assert((seq![first] + rest).drop_first() =~= rest);
                    assert((seq![first] + rest)[0] == first);
                }
            },
            _ => {},
        }
    }
}

/// The map from names to functions that a sequence of finds denotes: a
/// later find of a name replaces an earlier one.
pub open spec fn found_map(found: Seq<(Seq<char>, Lll)>) -> Map<Seq<char>, Lll>
    decreases found.len(),
{
    if found.len() == 0 {
        Map::empty()
    } else {
        found_map(found.drop_last()).insert(found.last().0, found.last().1)
    }
}

/// A map of finds that are all functions maps each name to a function
/// opened by a label of that name.
proof fn lemma_found_map_functions(found: Seq<(Seq<char>, Lll)>)
    requires
        all_functions(found),
    ensures
        forall|name: Seq<char>| #[trigger] found_map(found).contains_key(name) ==> classify(found_map(found)[name])
            == Entry::Function(name),
    decreases found.len(),
{
    if found.len() > 0 {
        assert(all_functions(found.drop_last())) by {
            assert forall|i: int| 0 <= i < found.drop_last().len() implies classify(
                (#[trigger] found.drop_last()[i]).1,
            ) == Entry::Function(found.drop_last()[i].0) by {
                assert(found.drop_last()[i] == found[i]);
            }
        }
        lemma_found_map_functions(found.drop_last());
        assert(classify(found[found.len() - 1].1) == Entry::Function(found[found.len() - 1].0));
    }
}

/// Each function the search takes out of a tree is filed under its name: it
/// is a sequence opened by a label of that name.
pub proof fn lemma_extracted_functions(e: Lll)
    ensures
        hoist(e) matches Hoisted::Done(_, found) ==> forall|name: Seq<char>| #[trigger] found_map(
            found,
        ).contains_key(name) ==> classify(found_map(found)[name]) == Entry::Function(name),
{
    lemma_hoist_finds_functions(e);
    if let Hoisted::Done(_, found) = hoist(e) {
        lemma_found_map_functions(found);
    }
}

/// The trees of a map of expressions.
pub open spec fn models_map(m: Map<Seq<char>, Expression>) -> Map<Seq<char>, Lll> {
    m.map_values(|e: Expression| e.model())
}

/// The finds that a sequence of named expressions denotes.
pub open spec fn pairs_models(pairs: Seq<(String, Expression)>) -> Seq<(Seq<char>, Lll)>
    decreases pairs.len(),
{
    if pairs.len() == 0 {
        Seq::empty()
    } else {
        pairs_models(pairs.drop_last()).push((pairs.last().0@, pairs.last().1.model()))
    }
}

/// The finds of a sequence grow by one find per pushed pair.
pub proof fn lemma_pairs_models_push(pairs: Seq<(String, Expression)>, pair: (String, Expression))
    ensures
        pairs_models(pairs.push(pair)) == pairs_models(pairs).push((pair.0@, pair.1.model())),
{
    assert(pairs.push(pair).drop_last() =~= pairs);
}

/// How an element of a sequence is seen by the function search.
pub enum EntryKind {
    /// A function: a sequence opened by a function label of this name.
    Function(String),
    /// Anything else, which is searched in turn.
    Other,
    /// A sequence opened by a label whose name is not an identifier.
    Failed,
    /// A sequence opened by an empty label.
    Stuck,
}

/// How an element of a sequence is seen by the function search.
pub fn classify_entry(e: &Expression) -> (r: EntryKind)
    ensures
        match r {
            EntryKind::Function(name) => classify(e.model()) == Entry::Function(name@),
            EntryKind::Other => classify(e.model()) is Other,
            EntryKind::Failed => classify(e.model()) is Failed,
            EntryKind::Stuck => classify(e.model()) is Stuck,
        },
{
    if let Expression::Instruction(Instruction::Sequence(sequence)) = e {
        proof {
            Expression::lemma_models_index(sequence.0@);
        }
        if sequence.0.len() == 0 {
            return EntryKind::Other;
        }
        if let Expression::Instruction(Instruction::Label(label)) = &sequence.0[0] {
            proof {
                Expression::lemma_models_index(label.0@);
            }
            if label.0.len() == 0 {
                return EntryKind::Stuck;
            }
            if let Expression::Identifier(name) = &label.0[0] {
                let chars = chars_of(name.as_str());
                let external = chars_of(FUNCTION_PREFIX_EXTERNAL);
                let internal = chars_of(FUNCTION_PREFIX_INTERNAL);
                if starts_with(chars.as_slice(), external.as_slice()) || starts_with(
                    chars.as_slice(),
                    internal.as_slice(),
                ) {
                    return EntryKind::Function(name.clone());
                }
                return EntryKind::Other;
            }
            return EntryKind::Failed;
        }
    }
    EntryKind::Other
}

/// Searches a tree for functions, taking them out.
pub fn hoist_expression(e: &mut Expression, found: &mut Vec<(String, Expression)>)
    requires
        hoist(old(e).model()) is Done,
    ensures
        match hoist(old(e).model()) {
            Hoisted::Done(rest, functions) => final(e).model() == rest && pairs_models(final(found)@)
                == pairs_models(old(found)@) + functions,
            _ => false,
        },
    decreases *old(e), 0nat,
{
    match e {
        Expression::Instruction(instruction) => match instruction {
            Instruction::Sequence(sequence) => {
                hoist_sequence(&mut sequence.0, found);
            },
            Instruction::With(with) => {
                proof {
                    Expression::lemma_models_index(with.0@);
                }
                hoist_operand(&mut with.0, 2, found);
            },
            Instruction::If(branch) => {
                proof {
                    Expression::lemma_models_index(branch.0@);
                }
                let ghost operands = Expression::models(branch.0@);
                let ghost elements = branch.0@;
                let ghost start = pairs_models(found@);
                hoist_operand(&mut branch.0, 1, found);
                if branch.0.len() > 2 {
                    proof {
                        Expression::lemma_models_index(branch.0@);
                        assert(branch.0@[2] == elements[2]);
                        assert(operands[2] == elements[2].model());
                        assert(hoist(operands[2]) is Done);
                    }
                    hoist_operand(&mut branch.0, 2, found);
                    proof {
                        if let Hoisted::Done(main, f1) = hoist(operands[1]) {
                            if let Hoisted::Done(other, f2) = hoist(operands[2]) {
                                assert(pairs_models(found@) =~= start + (f1 + f2));
                            }
                        }
                    }
                }
            },
            Instruction::Repeat(repeat) => {
                proof {
                    Expression::lemma_models_index(repeat.0@);
                }
                let last = repeat.0.len() - 1;
                hoist_operand(&mut repeat.0, last, found);
            },
            Instruction::Label(label) => {
                proof {
                    Expression::lemma_models_index(label.0@);
                }
                let last = label.0.len() - 1;
                hoist_operand(&mut label.0, last, found);
            },
            _ => {
                assert(pairs_models(found@) + Seq::empty() =~= pairs_models(found@));
            },
        },
        _ => {
            assert(pairs_models(found@) + Seq::empty() =~= pairs_models(found@));
        },
    }
}

/// Searches one operand of an instruction for functions, taking them out.
fn hoist_operand(operands: &mut Vec<Expression>, i: usize, found: &mut Vec<(String, Expression)>)
    requires
        i < old(operands).len(),
        hoist(old(operands)@[i as int].model()) is Done,
    ensures
        final(operands).len() == old(operands).len(),
        forall|j: int| 0 <= j < old(operands).len() && j != i ==> final(operands)@[j] == old(operands)@[j],
        match hoist(old(operands)@[i as int].model()) {
            Hoisted::Done(rest, functions) => Expression::models(final(operands)@) == Expression::models(
                old(operands)@,
            ).update(i as int, rest) && pairs_models(final(found)@) == pairs_models(old(found)@)
                + functions,
            _ => false,
        },
    decreases old(operands)@[i as int], 1nat,
{
    let ghost before = operands@;
    hoist_expression(&mut operands[i], found);
    proof {
        Expression::lemma_models_update(before, i as int, operands@[i as int]);
        assert(operands@ == before.update(i as int, operands@[i as int]));
    }
}

/// Searches a sequence for functions, taking them out.
pub fn hoist_sequence(items: &mut Vec<Expression>, found: &mut Vec<(String, Expression)>)
    requires
        hoist_items(Expression::models(old(items)@)) is Done,
    ensures
        match hoist_items(Expression::models(old(items)@)) {
            HoistedItems::Done(rest, functions) => Expression::models(final(items)@) == rest
                && pairs_models(final(found)@) == pairs_models(old(found)@) + functions,
            _ => false,
        },
    decreases *old(items), 0nat,
{
    let ghost original = old(items)@;
    let ghost n = original.len();
    let ghost start = pairs_models(old(found)@);
    let ghost (all_rest, all_found) = match hoist_items(Expression::models(original)) {
        HoistedItems::Done(rest, functions) => (rest, functions),
        _ => (Seq::empty(), Seq::empty()),
    };
    let mut index: usize = 0;
    let ghost mut consumed: int = 0;
    proof {
        assert(original.subrange(0, n as int) =~= original);
        assert(items@.subrange(0, 0) =~= Seq::<Expression>::empty());
        assert(Expression::models(Seq::<Expression>::empty()) =~= Seq::empty());
        assert(start + Seq::empty() =~= start);
    }
    while index < items.len()
        invariant
            n == original.len(),
            original == old(items)@,
            0 <= index <= consumed <= n,
            items@.len() - index == n - consumed,
            items@.subrange(index as int, items@.len() as int) == original.subrange(consumed, n as int),
            hoist_items(Expression::models(original.subrange(consumed, n as int))) matches HoistedItems::Done(rest, functions)
                && Expression::models(items@.subrange(0, index as int)) + rest == all_rest
                && pairs_models(found@) + functions == start + all_found,
            hoist_items(Expression::models(original)) == HoistedItems::Done(all_rest, all_found),
        decreases items@.len() - index,
    {
        let ghost suffix = original.subrange(consumed, n as int);
        proof {
            Expression::lemma_models_index(suffix);
            Expression::lemma_models_index(original);
            Expression::lemma_models_subrange(original, consumed, n as int);
            Expression::lemma_models_subrange(original, consumed + 1, n as int);
            assert(suffix[0] == items@[index as int]);
            assert(Expression::models(suffix).drop_first() =~= Expression::models(
                original.subrange(consumed + 1, n as int),
            ));
        }
        match classify_entry(&items[index]) {
            EntryKind::Function(name) => {
                let ghost before = items@;
                let function = items.remove(index);
                proof {
                    lemma_pairs_models_push(found@, (name, function));
                }
                found.push((name, function));
                proof {
                    let old_consumed = consumed;
                    consumed = consumed + 1;
                    assert(items@ == before.remove(index as int));
                    assert forall|k: int| 0 <= k < items@.len() - index implies #[trigger] items@.subrange(
                        index as int,
                        items@.len() as int,
                    )[k] == original.subrange(consumed, n as int)[k] by {
                        assert(before.subrange(index as int, before.len() as int)[k + 1]
                            == original.subrange(old_consumed, n as int)[k + 1]);
                    }
                    assert(items@.subrange(index as int, items@.len() as int) =~= original.subrange(
                        consumed,
                        n as int,
                    ));
                    assert(items@.subrange(0, index as int) =~= before.subrange(0, index as int));
                    let (rest, functions) = match hoist_items(Expression::models(original.subrange(consumed, n as int))) {
                        HoistedItems::Done(rest, functions) => (rest, functions),
                        _ => (Seq::empty(), Seq::empty()),
                    };
                    assert(seq![(name@, function.model())] + functions =~= seq![(name@, suffix[0].model())] + functions);
                    assert(pairs_models(found@) + functions =~= start + all_found);
                }
            },
            EntryKind::Other => {
                let ghost before = items@;
                proof {
                    assert(decreases_to!(*old(items) => old(items)@));
                    assert(decreases_to!(original => original[consumed]));
                    assert(original.subrange(consumed, n as int)[0] == items@.subrange(index as int, items@.len() as int)[0]);
                    assert(original[consumed] == items@[index as int]);
                }
                hoist_expression(&mut items[index], found);
                proof {
                    let ghost after = items@;
                    assert(after == before.update(index as int, after[index as int]));
                    Expression::lemma_models_update(before, index as int, after[index as int]);
                    let old_consumed = consumed;
                    consumed = consumed + 1;
                    assert forall|k: int| 0 <= k < after.len() - index - 1 implies #[trigger] after.subrange(
                        index + 1,
                        after.len() as int,
                    )[k] == original.subrange(consumed, n as int)[k] by {
                        assert(before.subrange(index as int, before.len() as int)[k + 1]
                            == original.subrange(old_consumed, n as int)[k + 1]);
                    }
                    assert(after.subrange(index + 1, after.len() as int) =~= original.subrange(
                        consumed,
                        n as int,
                    ));
                    assert(after.subrange(0, index + 1) =~= before.subrange(0, index as int).push(after[index as int]));
                    Expression::lemma_models_push(before.subrange(0, index as int), after[index as int]);
                    assert(before.subrange(0, index as int) =~= after.subrange(0, index as int));
                    let (rest, functions) = match hoist_items(Expression::models(original.subrange(consumed, n as int))) {
                        HoistedItems::Done(rest, functions) => (rest, functions),
                        _ => (Seq::empty(), Seq::empty()),
                    };
                    assert(Expression::models(after.subrange(0, index + 1)) + rest =~= Expression::models(
                        after.subrange(0, index as int),
                    ) + (seq![after[index as int].model()] + rest));
                }
                index = index + 1;
                proof {
                    let ghost after = items@;
                    let (rest, functions) = match hoist_items(Expression::models(original.subrange(consumed, n as int))) {
                        HoistedItems::Done(rest, functions) => (rest, functions),
                        _ => (Seq::empty(), Seq::empty()),
                    };
                    assert(pairs_models(found@) + functions =~= start + all_found);
                }
            },
            EntryKind::Failed => {
                proof {
                    assert(false);
                }
            },
            EntryKind::Stuck => {
                proof {
                    assert(false);
                }
            },
        }
    }
    proof {
        assert(items@.subrange(0, index as int) =~= items@);
        assert(original.subrange(consumed, n as int) =~= Seq::<Expression>::empty());
        assert(Expression::models(Seq::<Expression>::empty()) =~= Seq::empty());
        assert(Expression::models(items@) + Seq::empty() =~= Expression::models(items@));
        assert(pairs_models(found@) + Seq::empty() =~= pairs_models(found@));
    }
}

/// Whether the function search in a tree succeeds.
pub fn can_hoist(e: &Expression) -> (r: bool)
    requires
        !(hoist(e.model()) is Stuck),
    ensures
        r == (hoist(e.model()) is Done),
    decreases e, 0nat,
{
    match e {
        Expression::Instruction(instruction) => match instruction {
            Instruction::Sequence(sequence) => can_hoist_items(&sequence.0),
            Instruction::With(with) => {
                proof {
                    Expression::lemma_models_index(with.0@);
                }
                can_hoist(&with.0[2])
            },
            Instruction::If(branch) => {
                proof {
                    Expression::lemma_models_index(branch.0@);
                }
                if !can_hoist(&branch.0[1]) {
                    return false;
                }
                if branch.0.len() > 2 {
                    can_hoist(&branch.0[2])
                } else {
                    true
                }
            },
            Instruction::Repeat(repeat) => {
                proof {
                    Expression::lemma_models_index(repeat.0@);
                }
                can_hoist(&repeat.0[repeat.0.len() - 1])
            },
            Instruction::Label(label) => {
                proof {
                    Expression::lemma_models_index(label.0@);
                }
                can_hoist(&label.0[label.0.len() - 1])
            },
            _ => true,
        },
        _ => true,
    }
}

/// Whether the function search in a sequence succeeds.
pub fn can_hoist_items(items: &Vec<Expression>) -> (r: bool)
    requires
        !(hoist_items(Expression::models(items@)) is Stuck),
    ensures
        r == (hoist_items(Expression::models(items@)) is Done),
    decreases items, 0nat,
{
    let ghost all = Expression::models(items@);
    let ghost n = items@.len();
    proof {
        Expression::lemma_models_index(items@);
        assert(all.subrange(0, n as int) =~= all);
    }
    let mut i: usize = 0;
    while i < items.len()
        invariant
            all == Expression::models(items@),
            n == items@.len(),
            all.len() == n,
            i <= n,
            hoist_items(all) is Done <==> hoist_items(all.subrange(i as int, n as int)) is Done,
            hoist_items(all) is Stuck <==> hoist_items(all.subrange(i as int, n as int)) is Stuck,
            !(hoist_items(all) is Stuck),
        decreases n - i,
    {
        let ghost suffix = all.subrange(i as int, n as int);
        proof {
            Expression::lemma_models_index(items@);
            assert(suffix[0] == items@[i as int].model());
            assert(suffix.drop_first() =~= all.subrange(i + 1, n as int));
        }
        match classify_entry(&items[i]) {
            EntryKind::Function(_) => {},
            EntryKind::Other => {
                proof {
                    assert(decreases_to!(*items => items@));
                    assert(decreases_to!(items@ => items@[i as int]));
                }
                if !can_hoist(&items[i]) {
                    return false;
                }
            },
            EntryKind::Failed => {
                return false;
            },
            EntryKind::Stuck => {
                return false;
            },
        }
        i = i + 1;
    }
    proof {
        assert(all.subrange(n as int, n as int) =~= Seq::<Lll>::empty());
    }
    true
}

/// Setting a value in a map of expressions sets its tree in the map of trees.
pub proof fn lemma_models_map_insert(m: Map<Seq<char>, Expression>, key: Seq<char>, e: Expression)
    ensures
        models_map(m.insert(key, e)) == models_map(m).insert(key, e.model()),
{
    assert(models_map(m.insert(key, e)) =~= models_map(m).insert(key, e.model()));
}

/// The map of named functions, in the order they were found: a later find
/// of a name replaces an earlier one.
pub fn functions_map(found: Vec<(String, Expression)>) -> (r: StringMap<Expression>)
    ensures
        models_map(r.map()) == found_map(pairs_models(found@)),
{
    let ghost all = found@;
    let mut rest = found;
    let mut map: StringMap<Expression> = StringMap::new();
    proof {
        assert(models_map(map.map()) =~= Map::<Seq<char>, Lll>::empty());
        assert(all.take(0) =~= Seq::<(String, Expression)>::empty());
        assert(all.skip(0) =~= all);
    }
    while rest.len() > 0
        invariant
            rest.len() <= all.len(),
            rest@ == all.skip(all.len() - rest.len()),
            models_map(map.map()) == found_map(pairs_models(all.take(all.len() - rest.len()))),
        decreases rest.len(),
    {
        let ghost done = all.len() - rest.len();
        let (name, function) = rest.remove(0);
        proof {
            assert(all[done] == (name, function));
            lemma_pairs_models_push(all.take(done), all[done]);
            assert(all.take(done).push(all[done]) =~= all.take(done + 1));
            assert(pairs_models(all.take(done + 1)).drop_last() == pairs_models(all.take(done)));
            lemma_models_map_insert(map.map(), name@, function);
            assert(rest@ =~= all.skip(done + 1));
        }
        map.insert(name, function);
    }
    proof {
        assert(all.take(all.len() as int) =~= all);
    }
    map
}

impl Expression {
    /// Extracts the functions from the deploy or runtime code.
    ///
    /// On success, the functions are taken out of the code and returned by
    /// name; when a function label's name is not an identifier, the code is
    /// left as it was and an error is returned.
    pub fn extract_functions(&mut self) -> (r: Result<StringMap<Expression>, String>)
        requires
            !(hoist(old(self).model()) is Stuck),
        ensures
            match hoist(old(self).model()) {
                Hoisted::Done(rest, found) => r matches Ok(functions) && final(self).model() == rest
                    && models_map(functions.map()) == found_map(found),
                Hoisted::Failed => r is Err && *final(self) == *old(self),
                Hoisted::Stuck => false,
            },
    {
        if !can_hoist(self) {
            return Err("Expected an identifier as the function label name".to_owned());
        }
        let mut found: Vec<(String, Expression)> = Vec::new();
        proof {
            assert(pairs_models(found@) =~= Seq::empty());
        }
        hoist_expression(self, &mut found);
        proof {
            assert(Seq::empty() + pairs_models(found@) =~= pairs_models(found@));
        }
        Ok(functions_map(found))
    }
}

impl Expression {
    /// Whether the expression is a function entry block: a sequence opened
    /// by a label whose name starts with a function prefix.
    pub fn is_function(&self) -> (r: Result<bool, String>)
        requires
            !(classify(self.model()) is Stuck),
        ensures
            match classify(self.model()) {
                Entry::Function(_) => r == Ok::<bool, String>(true),
                Entry::Other => r == Ok::<bool, String>(false),
                Entry::Failed => r is Err,
                Entry::Stuck => false,
            },
    {
        match self {
            Expression::Instruction(instruction) => instruction.is_function(),
            _ => Ok(false),
        }
    }

    /// Returns the function name: the name of the label that opens the
    /// sequence.
    pub fn function_name(&self) -> (r: Result<String, String>)
        requires
            sequence_label(self.model()) matches Some(label) ==> label.len() > 0,
        ensures
            match sequence_label(self.model()) {
                Some(label) => match label[0] {
                    Lll::Name(name) => r matches Ok(function) && function@ == name,
                    _ => r is Err,
                },
                None => r is Err,
            },
    {
        match self {
            Expression::Instruction(instruction) => instruction.function_name(),
            _ => Err("Expected a function sequence".to_owned()),
        }
    }
}

} // verus!
