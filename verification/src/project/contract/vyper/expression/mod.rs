//! The `vyper -f ir_json` output: LLL IR expressions.

pub mod functions;
pub mod instruction;
pub mod tag;

use vstd::prelude::*;
use vstd::string::StringExecFns;

use crate::json::json_text;
use crate::json::Json;
use crate::json::JsonValue;
use crate::text::chars_of;
use crate::text::is_prefix;
use crate::text::string_of;

use self::instruction::assertion::Assert;
use self::instruction::deploy::Deploy;
use self::instruction::exit_to::ExitTo;
use self::instruction::goto::Goto;
use self::instruction::if_else::If;
use self::instruction::label::Label;
use self::instruction::repeat::Repeat;
use self::instruction::ret::Return;
use self::instruction::revert::Revert;
use self::instruction::seq::SeqInstruction;
use self::instruction::set::SetInstruction;
use self::instruction::with::With;
use self::instruction::refusal_of;
use self::instruction::Instruction;
use crate::project::contract::vyper::CodeSegment;
use self::tag::lemma_tag_name_roundtrip;
use self::tag::tag_by_name;
use self::tag::tag_fixed_arity;
use self::tag::tag_from_name;
use self::tag::tag_is_unit;
use self::tag::tag_name;
use self::tag::tag_name_chars;
use self::tag::tag_shape;
use self::tag::Shape;
use self::tag::Tag;
use self::tag::opcode_tag;
use self::tag::opcode_to_tag;
use self::tag::tag_opcode;
use self::tag::is_structural;

verus! {

broadcast use vstd::std_specs::vec::group_vec_axioms;

/// The LLL IR JSON expression.
#[derive(Debug)]
pub enum Expression {
    /// The LLL IR instruction.
    Instruction(Instruction),
    /// The LLL IR integer literal, by its decimal text.
    IntegerLiteral(String),
    /// The LLL IR identifier.
    Identifier(String),
    /// The LLL unknown variant trap.
    Unknown(JsonValue),
}

/// The LLL IR as a tree of values.
pub enum Lll {
    /// An instruction: its tag and its operands.
    Node(Tag, Seq<Lll>),
    /// An integer literal, by its decimal text.
    Literal(Seq<char>),
    /// An identifier.
    Name(Seq<char>),
    /// A JSON value that is no LLL expression.
    Unknown(Json),
    /// The payload of the `unknown` instruction trap.
    UnknownInstruction(Json),
}

impl Expression {
    /// The tree this expression denotes.
    pub open spec fn model(&self) -> Lll
        decreases self,
    {
        match self {
            Expression::Instruction(instruction) => Self::instruction_model(instruction),
            Expression::IntegerLiteral(number) => Lll::Literal(number@),
            Expression::Identifier(identifier) => Lll::Name(identifier@),
            Expression::Unknown(value) => Lll::Unknown(value.model()),
        }
    }

    /// The tree an instruction denotes.
    pub open spec fn instruction_model(instruction: &Instruction) -> Lll
        decreases instruction,
    {
        match instruction {
            Instruction::With(inner) => Lll::Node(Tag::With, Self::models(inner.0@)),
            Instruction::Assign(inner) => Lll::Node(Tag::Assign, Self::models(inner.0@)),
            Instruction::Sequence(inner) => Lll::Node(Tag::Sequence, Self::models(inner.0@)),
            Instruction::If(inner) => Lll::Node(Tag::If, Self::models(inner.0@)),
            Instruction::Repeat(inner) => Lll::Node(Tag::Repeat, Self::models(inner.0@)),
            Instruction::GoTo(inner) => Lll::Node(Tag::GoTo, Self::models(inner.0@)),
            Instruction::Exit_To(inner) => Lll::Node(Tag::Exit_To, Self::models(inner.0@)),
            Instruction::Label(inner) => Lll::Node(Tag::Label, Self::models(inner.0@)),
            Instruction::Cleanup_Repeat => Lll::Node(Tag::Cleanup_Repeat, Seq::empty()),
            Instruction::Break => Lll::Node(Tag::Break, Seq::empty()),
            Instruction::Continue => Lll::Node(Tag::Continue, Seq::empty()),
            Instruction::Pass => Lll::Node(Tag::Pass, Seq::empty()),
            Instruction::Deploy(inner) => Lll::Node(Tag::Deploy, Self::models(inner.0@)),
            Instruction::Assert(inner) => Lll::Node(Tag::Assert, Self::models(inner.0@)),
            Instruction::Assert_Unreachable(inner) => Lll::Node(
                Tag::Assert_Unreachable,
                Self::models(inner.0@),
            ),
            Instruction::Var_List(items) => Lll::Node(Tag::Var_List, Self::models(items@)),
            Instruction::RETURN(inner) => Lll::Node(Tag::RETURN, Self::models(inner.0@)),
            Instruction::REVERT(inner) => Lll::Node(Tag::REVERT, Self::models(inner.0@)),
            Instruction::Opcode(op, operands) => Lll::Node(opcode_tag(*op), Self::models(operands@)),
            Instruction::Unknown(value) => Lll::UnknownInstruction(value.model()),
        }
    }

    /// The trees a sequence of expressions denotes.
    pub open spec fn models(items: Seq<Expression>) -> Seq<Lll>
        decreases items,
    {
        if items.len() == 0 {
            Seq::empty()
        } else {
            Self::models(items.drop_last()).push(items.last().model())
        }
    }

    /// The trees of a sequence grow by one tree per pushed expression.
    pub proof fn lemma_models_push(items: Seq<Expression>, item: Expression)
        ensures
            Self::models(items.push(item)) == Self::models(items).push(item.model()),
    {
        assert(items.push(item).drop_last() =~= items);
    }

    /// Replacing an expression replaces its tree.
    pub proof fn lemma_models_update(items: Seq<Expression>, i: int, item: Expression)
        requires
            0 <= i < items.len(),
        ensures
            Self::models(items.update(i, item)) == Self::models(items).update(i, item.model()),
    {
        Self::lemma_models_index(items);
        Self::lemma_models_index(items.update(i, item));
        assert(Self::models(items.update(i, item)) =~= Self::models(items).update(i, item.model()));
    }

    /// Removing an expression removes its tree.
    pub proof fn lemma_models_remove(items: Seq<Expression>, i: int)
        requires
            0 <= i < items.len(),
        ensures
            Self::models(items.remove(i)) == Self::models(items).remove(i),
    {
        Self::lemma_models_index(items);
        Self::lemma_models_index(items.remove(i));
        assert(Self::models(items.remove(i)) =~= Self::models(items).remove(i));
    }

    /// The trees of a part of a sequence are that part of its trees.
    pub proof fn lemma_models_subrange(items: Seq<Expression>, i: int, j: int)
        requires
            0 <= i <= j <= items.len(),
        ensures
            Self::models(items.subrange(i, j)) == Self::models(items).subrange(i, j),
    {
        Self::lemma_models_index(items);
        Self::lemma_models_index(items.subrange(i, j));
        assert(Self::models(items.subrange(i, j)) =~= Self::models(items).subrange(i, j));
    }

    /// The trees of a sequence are those of its expressions.
    pub proof fn lemma_models_index(items: Seq<Expression>)
        ensures
            Self::models(items).len() == items.len(),
            forall|i: int| 0 <= i < items.len() ==> #[trigger] Self::models(items)[i] == items[i].model(),
        decreases items.len(),
    {
        if items.len() > 0 {
            Self::lemma_models_index(items.drop_last());
        }
    }
}

/// The JSON form of an LLL IR tree, as `serde` writes the IR.
///
/// Operand-less instructions are written as their bare name, the other
/// instructions as an object with their name as the only key.
pub open spec fn encode(e: Lll) -> Json
    decreases e,
{
    match e {
        Lll::Node(tag, operands) => if tag_shape(tag) is Unit {
            Json::Str(tag_name(tag))
        } else {
            Json::Object(seq![(tag_name(tag), Json::Array(encode_all(operands)))])
        },
        Lll::Literal(text) => Json::Number(text),
        Lll::Name(name) => Json::Str(name),
        Lll::Unknown(value) => value,
        Lll::UnknownInstruction(value) => Json::Object(seq![(tag_name(Tag::Unknown), value)]),
    }
}

/// The JSON forms of a sequence of trees.
pub open spec fn encode_all(items: Seq<Lll>) -> Seq<Json>
    decreases items,
{
    if items.len() == 0 {
        Seq::empty()
    } else {
        encode_all(items.drop_last()).push(encode(items.last()))
    }
}

/// The LLL IR tree that a JSON value is read as.
///
/// A value is first read as an instruction; failing that, a number is an
/// integer literal, a string an identifier, and anything else is kept as
/// an unknown expression.
pub open spec fn decode(j: Json) -> Lll
    decreases j,
{
    match j {
        Json::Str(name) => match tag_from_name(name) {
            Some(tag) => if tag_shape(tag) is Unit {
                Lll::Node(tag, Seq::empty())
            } else {
                Lll::Name(name)
            },
            None => Lll::Name(name),
        },
        Json::Number(text) => Lll::Literal(text),
        Json::Object(fields) => if fields.len() == 1 {
            match tag_from_name(fields[0].0) {
                Some(tag) => match tag_shape(tag) {
                    Shape::Unit => if fields[0].1 is Null {
                        Lll::Node(tag, Seq::empty())
                    } else {
                        Lll::Unknown(j)
                    },
                    Shape::Payload => Lll::UnknownInstruction(fields[0].1),
                    Shape::List => match fields[0].1 {
                        Json::Array(items) => Lll::Node(tag, decode_all(items)),
                        _ => Lll::Unknown(j),
                    },
                    Shape::Fixed(n) => match fields[0].1 {
                        Json::Array(items) => if items.len() == n {
                            Lll::Node(tag, decode_all(items))
                        } else {
                            Lll::Unknown(j)
                        },
                        _ => Lll::Unknown(j),
                    },
                },
                None => Lll::Unknown(j),
            }
        } else {
            Lll::Unknown(j)
        },
        _ => Lll::Unknown(j),
    }
}

/// The trees that a sequence of JSON values is read as.
pub open spec fn decode_all(items: Seq<Json>) -> Seq<Lll>
    decreases items,
{
    if items.len() == 0 {
        Seq::empty()
    } else {
        decode_all(items.drop_last()).push(decode(items.last()))
    }
}

/// Whether a tree is one that `serde` can write and read back unchanged:
/// each instruction has the operand count its tag admits, no identifier
/// spells an operand-less instruction, and no unknown expression reads as
/// anything else.
pub open spec fn well_formed(e: Lll) -> bool
    decreases e,
{
    match e {
        Lll::Node(tag, operands) => {
            &&& match tag_shape(tag) {
                Shape::Unit => operands.len() == 0,
                Shape::List => true,
                Shape::Fixed(n) => operands.len() == n,
                Shape::Payload => false,
            }
            &&& all_well_formed(operands)
        },
        Lll::Literal(_) => true,
        Lll::Name(name) => !(tag_from_name(name) matches Some(tag) && tag_shape(tag) is Unit),
        Lll::Unknown(value) => decode(value) == Lll::Unknown(value),
        Lll::UnknownInstruction(_) => true,
    }
}

/// Whether every tree of a sequence is well formed.
pub open spec fn all_well_formed(items: Seq<Lll>) -> bool
    decreases items,
{
    if items.len() == 0 {
        true
    } else {
        all_well_formed(items.drop_last()) && well_formed(items.last())
    }
}

/// The JSON forms of a sequence have one form per tree.
pub proof fn lemma_encode_all_len(items: Seq<Lll>)
    ensures
        encode_all(items).len() == items.len(),
    decreases items.len(),
{
    if items.len() > 0 {
        lemma_encode_all_len(items.drop_last());
    }
}

/// Serialization law: a well-formed LLL IR tree written to JSON is read back
/// as the same tree, so the IR survives the trip to the compiling subprocess.
pub proof fn lemma_decode_encode(e: Lll)
    requires
        well_formed(e),
    ensures
        decode(encode(e)) == e,
    decreases e,
{
    match e {
        Lll::Node(tag, operands) => {
            lemma_tag_name_roundtrip(tag);
            lemma_decode_encode_all(operands);
            lemma_encode_all_len(operands);
        },
        Lll::UnknownInstruction(_) => {
            lemma_tag_name_roundtrip(Tag::Unknown);
        },
        _ => {},
    }
}

/// Serialization law for sequences of trees.
pub proof fn lemma_decode_encode_all(items: Seq<Lll>)
    requires
        all_well_formed(items),
    ensures
        decode_all(encode_all(items)) == items,
    decreases items,
{
    if items.len() > 0 {
        lemma_decode_encode_all(items.drop_last());
        lemma_decode_encode(items.last());
        assert(encode_all(items).drop_last() =~= encode_all(items.drop_last()));
        assert(decode_all(encode_all(items)) =~= items);
    }
}

/// Every tree read from JSON is well formed.
pub proof fn lemma_decode_well_formed(j: Json)
    ensures
        well_formed(decode(j)),
    decreases j,
{
    match j {
        Json::Object(fields) => {
            if fields.len() == 1 {
                match fields[0].1 {
                    Json::Array(items) => {
                        lemma_decode_all_well_formed(items);
                        lemma_decode_all_len(items);
                    },
                    _ => {},
                }
            }
        },
        _ => {},
    }
}

/// Every tree read from a sequence of JSON values is well formed.
pub proof fn lemma_decode_all_well_formed(items: Seq<Json>)
    ensures
        all_well_formed(decode_all(items)),
    decreases items,
{
    if items.len() > 0 {
        lemma_decode_all_well_formed(items.drop_last());
        lemma_decode_well_formed(items.last());
        assert(decode_all(items).drop_last() =~= decode_all(items.drop_last()));
    }
}

/// The trees read from a sequence have one tree per value.
pub proof fn lemma_decode_all_len(items: Seq<Json>)
    ensures
        decode_all(items).len() == items.len(),
    decreases items.len(),
{
    if items.len() > 0 {
        lemma_decode_all_len(items.drop_last());
    }
}

/// The trees read from a sequence grow by one tree per pushed value.
pub proof fn lemma_decode_all_push(items: Seq<Json>, item: Json)
    ensures
        decode_all(items.push(item)) == decode_all(items).push(decode(item)),
{
    assert(items.push(item).drop_last() =~= items);
}

/// The JSON forms of a sequence grow by one form per pushed tree.
pub proof fn lemma_encode_all_push(items: Seq<Lll>, item: Lll)
    ensures
        encode_all(items.push(item)) == encode_all(items).push(encode(item)),
{
    assert(items.push(item).drop_last() =~= items);
}

impl Instruction {
    /// The operand-less instruction of a tag.
    fn unit(tag: Tag) -> (r: Instruction)
        requires
            tag_shape(tag) is Unit,
        ensures
            Expression::instruction_model(&r) == Lll::Node(tag, Seq::empty()),
    {
        match tag {
            Tag::Cleanup_Repeat => Instruction::Cleanup_Repeat,
            Tag::Break => Instruction::Break,
            Tag::Continue => Instruction::Continue,
            Tag::Pass => Instruction::Pass,
            _ => {
                let operands: Vec<Expression> = Vec::new();
                proof {
                    assert(Expression::models(operands@) =~= Seq::empty());
                }
                match tag_opcode(tag) {
                    Some(op) => Instruction::Opcode(op, operands),
                    None => vstd::pervasive::unreached(),
                }
            },
        }
    }

    /// The instruction of a tag that takes operands.
    fn node(tag: Tag, operands: Vec<Expression>) -> (r: Instruction)
        requires
            tag_shape(tag) is List || tag_shape(tag) is Fixed,
        ensures
            Expression::instruction_model(&r) == Lll::Node(tag, Expression::models(operands@)),
    {
        match tag {
            Tag::With => Instruction::With(With(operands)),
            Tag::Assign => Instruction::Assign(SetInstruction(operands)),
            Tag::Sequence => Instruction::Sequence(SeqInstruction(operands)),
            Tag::If => Instruction::If(If(operands)),
            Tag::Repeat => Instruction::Repeat(Repeat(operands)),
            Tag::GoTo => Instruction::GoTo(Goto(operands)),
            Tag::Exit_To => Instruction::Exit_To(ExitTo(operands)),
            Tag::Label => Instruction::Label(Label(operands)),
            Tag::Deploy => Instruction::Deploy(Deploy(operands)),
            Tag::Assert => Instruction::Assert(Assert(operands)),
            Tag::Assert_Unreachable => Instruction::Assert_Unreachable(Assert(operands)),
            Tag::Var_List => Instruction::Var_List(operands),
            Tag::RETURN => Instruction::RETURN(Return(operands)),
            Tag::REVERT => Instruction::REVERT(Revert(operands)),
            _ => match tag_opcode(tag) {
                Some(op) => Instruction::Opcode(op, operands),
                None => vstd::pervasive::unreached(),
            },
        }
    }
}

impl Expression {
    /// Reads an LLL IR expression from its JSON form, as `vyper -f ir_json`
    /// writes it.
    #[verifier::loop_isolation(false)]
    pub fn from_json(j: &JsonValue) -> (e: Expression)
        ensures
            e.model() == decode(j.model()),
        decreases j,
    {
        match j {
            JsonValue::String(name) => {
                let chars = chars_of(name.as_str());
                if let Some(tag) = tag_by_name(chars.as_slice()) {
                    if tag_is_unit(tag) {
                        return Expression::Instruction(Instruction::unit(tag));
                    }
                }
                Expression::Identifier(name.clone())
            },
            JsonValue::Number(text) => Expression::IntegerLiteral(text.clone()),
            JsonValue::Object(fields) => {
                proof {
                    JsonValue::lemma_model_fields_index(fields@);
                }
                if fields.len() == 1 {
                    let key = chars_of(fields[0].0.as_str());
                    if let Some(tag) = tag_by_name(key.as_slice()) {
                        let payload = &fields[0].1;
                        if tag_is_unit(tag) {
                            if let JsonValue::Null = payload {
                                return Expression::Instruction(Instruction::unit(tag));
                            }
                        } else if tag == Tag::Unknown {
                            return Expression::Instruction(Instruction::Unknown(payload.duplicate()));
                        } else if let JsonValue::Array(items) = payload {
                            proof {
                                JsonValue::lemma_model_items_index(items@);
                            }
                            let admitted = match tag_fixed_arity(tag) {
                                Some(n) => items.len() == n,
                                None => true,
                            };
                            if admitted {
                                let mut operands: Vec<Expression> = Vec::new();
                                let mut i: usize = 0;
                                while i < items.len()
                                    invariant
                                        i <= items.len(),
                                        Expression::models(operands@) == decode_all(
                                            JsonValue::model_items(items@.take(i as int)),
                                        ),
                                    decreases items.len() - i,
                                {
                                    proof {
                                        assert(decreases_to!(*fields => fields@));
                                        assert(decreases_to!(fields@ => fields@[0]));
                                        assert(decreases_to!(fields@[0] => fields@[0].1));
                                        assert(decreases_to!(*items => items@));
                                        assert(decreases_to!(items@ => items@[i as int]));
                                    }
                                    let operand = Expression::from_json(&items[i]);
                                    proof {
                                        Expression::lemma_models_push(operands@, operand);
                                        JsonValue::lemma_model_items_push(
                                            items@.take(i as int),
                                            items@[i as int],
                                        );
                                        assert(items@.take(i as int).push(items@[i as int])
                                            =~= items@.take(i + 1));
                                        lemma_decode_all_push(
                                            JsonValue::model_items(items@.take(i as int)),
                                            items@[i as int].model(),
                                        );
                                    }
                                    operands.push(operand);
                                    i = i + 1;
                                }
                                proof {
                                    assert(items@.take(items.len() as int) =~= items@);
                                    JsonValue::lemma_model_items_index(items@);
                                }
                                return Expression::Instruction(Instruction::node(tag, operands));
                            }
                        }
                    }
                }
                Expression::Unknown(j.duplicate())
            },
            _ => Expression::Unknown(j.duplicate()),
        }
    }
}

/// The JSON form of an operand-less instruction: its bare name.
fn unit_json(tag: Tag) -> (j: JsonValue)
    requires
        tag_shape(tag) is Unit,
    ensures
        j.model() == encode(Lll::Node(tag, Seq::empty())),
{
    let name = tag_name_chars(tag);
    JsonValue::String(string_of(name.as_slice()))
}

/// The JSON form of an instruction with operands, given the forms of its operands.
fn node_json(tag: Tag, operands: Vec<JsonValue>) -> (j: JsonValue)
    requires
        !(tag_shape(tag) is Unit),
    ensures
        j.model() == Json::Object(
            seq![(tag_name(tag), Json::Array(JsonValue::model_items(operands@)))],
        ),
{
    let name = tag_name_chars(tag);
    let mut fields: Vec<(String, JsonValue)> = Vec::new();
    let entry = (string_of(name.as_slice()), JsonValue::Array(operands));
    fields.push(entry);
    proof {
        JsonValue::lemma_model_fields_push(Seq::empty(), entry);
        assert(Seq::<(String, JsonValue)>::empty().push(entry) =~= fields@);
        assert(JsonValue::model_fields(Seq::empty()) =~= Seq::empty());
    }
    JsonValue::Object(fields)
}

/// The refusal of an expression that is neither a `seq` nor a `deploy`.
pub open spec fn not_code_prefix() -> Seq<char> {
    "Expected [`seq`, `deploy`], found "@
}

/// The refusal of a `deploy` whose runtime code is not a `seq`.
pub open spec fn not_sequence_prefix() -> Seq<char> {
    "Expected `seq`, found "@
}

/// `prefix` followed by what was found, between backticks: the name of an
/// identifier, the text of a literal, the instruction's name.
pub fn found_message(prefix: &str, e: &Expression) -> (r: String)
    ensures
        is_prefix(prefix@, r@),
{
    let mut text = String::from_str(prefix);
    text.append("`");
    match e {
        Expression::Identifier(name) => text.append(name.as_str()),
        Expression::IntegerLiteral(number) => text.append(number.as_str()),
        Expression::Unknown(_) => text.append("unknown"),
        Expression::Instruction(_) => match e.to_json() {
            JsonValue::String(name) => text.append(name.as_str()),
            JsonValue::Object(fields) => {
                if fields.len() > 0 {
                    text.append(fields[0].0.as_str());
                }
            },
            _ => {},
        },
    }
    text.append("`");
    proof {
        assert(text@.subrange(0, prefix@.len() as int) =~= prefix@);
    }
    text
}

impl Expression {
    /// Writes the expression in its JSON form, as `serde` writes the IR.
    pub fn to_json(&self) -> (j: JsonValue)
        ensures
            j.model() == encode(self.model()),
        decreases self,
    {
        match self {
            Expression::Instruction(instruction) => match instruction {
                Instruction::With(inner) => node_json(Tag::With, Self::to_json_all(&inner.0)),
                Instruction::Assign(inner) => node_json(Tag::Assign, Self::to_json_all(&inner.0)),
                Instruction::Sequence(inner) => node_json(Tag::Sequence, Self::to_json_all(&inner.0)),
                Instruction::If(inner) => node_json(Tag::If, Self::to_json_all(&inner.0)),
                Instruction::Repeat(inner) => node_json(Tag::Repeat, Self::to_json_all(&inner.0)),
                Instruction::GoTo(inner) => node_json(Tag::GoTo, Self::to_json_all(&inner.0)),
                Instruction::Exit_To(inner) => node_json(Tag::Exit_To, Self::to_json_all(&inner.0)),
                Instruction::Label(inner) => node_json(Tag::Label, Self::to_json_all(&inner.0)),
                Instruction::Deploy(inner) => node_json(Tag::Deploy, Self::to_json_all(&inner.0)),
                Instruction::Assert(inner) => node_json(Tag::Assert, Self::to_json_all(&inner.0)),
                Instruction::Assert_Unreachable(inner) => node_json(Tag::Assert_Unreachable, Self::to_json_all(&inner.0)),
                Instruction::Var_List(inner) => node_json(Tag::Var_List, Self::to_json_all(&inner)),
                Instruction::RETURN(inner) => node_json(Tag::RETURN, Self::to_json_all(&inner.0)),
                Instruction::REVERT(inner) => node_json(Tag::REVERT, Self::to_json_all(&inner.0)),
                Instruction::Cleanup_Repeat => unit_json(Tag::Cleanup_Repeat),
                Instruction::Break => unit_json(Tag::Break),
                Instruction::Continue => unit_json(Tag::Continue),
                Instruction::Pass => unit_json(Tag::Pass),
                Instruction::Opcode(op, operands) => {
                    let tag = opcode_to_tag(*op);
                    if tag_is_unit(tag) {
                        unit_json(tag)
                    } else {
                        node_json(tag, Self::to_json_all(operands))
                    }
                },
                Instruction::Unknown(value) => {
                    let name = tag_name_chars(Tag::Unknown);
                    let entry = (string_of(name.as_slice()), value.duplicate());
                    let mut fields: Vec<(String, JsonValue)> = Vec::new();
                    fields.push(entry);
                    proof {
                        JsonValue::lemma_model_fields_push(Seq::empty(), entry);
                        assert(Seq::<(String, JsonValue)>::empty().push(entry) =~= fields@);
                        assert(JsonValue::model_fields(Seq::empty()) =~= Seq::empty());
                    }
                    JsonValue::Object(fields)
                },
            },
            Expression::IntegerLiteral(text) => JsonValue::Number(text.clone()),
            Expression::Identifier(name) => JsonValue::String(name.clone()),
            Expression::Unknown(value) => value.duplicate(),
        }
    }

    /// Writes a sequence of expressions in their JSON forms.
    fn to_json_all(items: &Vec<Expression>) -> (r: Vec<JsonValue>)
        ensures
            JsonValue::model_items(r@) == encode_all(Expression::models(items@)),
        decreases items,
    {
        let mut forms: Vec<JsonValue> = Vec::new();
        let mut i: usize = 0;
        while i < items.len()
            invariant
                i <= items.len(),
                JsonValue::model_items(forms@) == encode_all(Expression::models(items@.take(i as int))),
            decreases items.len() - i,
        {
            proof {
                assert(decreases_to!(*items => items@));
                assert(decreases_to!(items@ => items@[i as int]));
            }
            let form = items[i].to_json();
            proof {
                JsonValue::lemma_model_items_push(forms@, form);
                Expression::lemma_models_push(items@.take(i as int), items@[i as int]);
                assert(items@.take(i as int).push(items@[i as int]) =~= items@.take(i + 1));
                lemma_encode_all_push(Expression::models(items@.take(i as int)), items@[i as int].model());
            }
            forms.push(form);
            i = i + 1;
        }
        assert(items@.take(items.len() as int) =~= items@);
        forms
    }
}

impl Expression {
    /// A copy of the expression.
    pub fn duplicate(&self) -> (r: Expression)
        ensures
            r.model() == self.model(),
        decreases self,
    {
        match self {
            Expression::Instruction(instruction) => Expression::Instruction(match instruction {
                Instruction::With(inner) => Instruction::With(With(Self::duplicate_all(&inner.0))),
                Instruction::Assign(inner) => Instruction::Assign(SetInstruction(Self::duplicate_all(&inner.0))),
                Instruction::Sequence(inner) => Instruction::Sequence(SeqInstruction(Self::duplicate_all(&inner.0))),
                Instruction::If(inner) => Instruction::If(If(Self::duplicate_all(&inner.0))),
                Instruction::Repeat(inner) => Instruction::Repeat(Repeat(Self::duplicate_all(&inner.0))),
                Instruction::GoTo(inner) => Instruction::GoTo(Goto(Self::duplicate_all(&inner.0))),
                Instruction::Exit_To(inner) => Instruction::Exit_To(ExitTo(Self::duplicate_all(&inner.0))),
                Instruction::Label(inner) => Instruction::Label(Label(Self::duplicate_all(&inner.0))),
                Instruction::Deploy(inner) => Instruction::Deploy(Deploy(Self::duplicate_all(&inner.0))),
                Instruction::Assert(inner) => Instruction::Assert(Assert(Self::duplicate_all(&inner.0))),
                Instruction::Assert_Unreachable(inner) => Instruction::Assert_Unreachable(Assert(Self::duplicate_all(&inner.0))),
                Instruction::RETURN(inner) => Instruction::RETURN(Return(Self::duplicate_all(&inner.0))),
                Instruction::REVERT(inner) => Instruction::REVERT(Revert(Self::duplicate_all(&inner.0))),
                Instruction::Var_List(items) => Instruction::Var_List(Self::duplicate_all(items)),
                Instruction::Cleanup_Repeat => Instruction::Cleanup_Repeat,
                Instruction::Break => Instruction::Break,
                Instruction::Continue => Instruction::Continue,
                Instruction::Pass => Instruction::Pass,
                Instruction::Opcode(op, operands) => Instruction::Opcode(*op, Self::duplicate_all(operands)),
                Instruction::Unknown(value) => Instruction::Unknown(value.duplicate()),
            }),
            Expression::IntegerLiteral(text) => Expression::IntegerLiteral(text.clone()),
            Expression::Identifier(name) => Expression::Identifier(name.clone()),
            Expression::Unknown(value) => Expression::Unknown(value.duplicate()),
        }
    }

    /// Copies of a sequence of expressions.
    pub fn duplicate_all(items: &Vec<Expression>) -> (r: Vec<Expression>)
        ensures
            Expression::models(r@) == Expression::models(items@),
        decreases items,
    {
        let mut copies: Vec<Expression> = Vec::new();
        let mut i: usize = 0;
        while i < items.len()
            invariant
                i <= items.len(),
                Expression::models(copies@) == Expression::models(items@.take(i as int)),
            decreases items.len() - i,
        {
            proof {
                assert(decreases_to!(*items => items@));
                assert(decreases_to!(items@ => items@[i as int]));
            }
            let copy = items[i].duplicate();
            proof {
                Expression::lemma_models_push(copies@, copy);
                Expression::lemma_models_push(items@.take(i as int), items@[i as int]);
                assert(items@.take(i as int).push(items@[i as int]) =~= items@.take(i + 1));
            }
            copies.push(copy);
            i = i + 1;
        }
        assert(items@.take(items.len() as int) =~= items@);
        copies
    }
}

/// The `pass` instruction.
pub open spec fn pass() -> Lll {
    Lll::Node(Tag::Pass, Seq::empty())
}

/// Whether a tree is the identifier `name`.
pub open spec fn is_name(e: Lll, name: Seq<char>) -> bool {
    e == Lll::Name(name)
}

/// Whether an expression is the `pass` instruction.
pub fn is_pass(e: &Expression) -> (r: bool)
    ensures
        r == (e.model() == pass()),
{
    proof {
        if let Expression::Instruction(Instruction::Opcode(op, _)) = e {
            self::tag::lemma_opcode_tag_plain(*op);
        }
    }
    matches!(e, Expression::Instruction(Instruction::Pass))
}

/// Whether an expression is the identifier `name`.
pub fn is_identifier(e: &Expression, name: &[char]) -> (r: bool)
    ensures
        r == is_name(e.model(), name@),
{
    match e {
        Expression::Identifier(identifier) => {
            let chars = chars_of(identifier.as_str());
            crate::text::equal_chars(chars.as_slice(), name)
        },
        _ => false,
    }
}

impl Expression {
    /// Converts the entity to an identifier.
    pub fn try_into_identifier(&self) -> (r: Result<String, String>)
        ensures
            match self.model() {
                Lll::Name(name) => r matches Ok(identifier) && identifier@ == name,
                _ => r is Err,
            },
    {
        match self {
            Expression::Identifier(identifier) => Ok(identifier.clone()),
            _ => Err("Expected an identifier".to_owned()),
        }
    }
}

impl Expression {
    /// The default expression: an empty sequence.
    pub fn default() -> (r: Self)
        ensures
            r.model() == Lll::Node(Tag::Sequence, Seq::empty()),
    {
        Expression::Instruction(Instruction::Sequence(SeqInstruction::new()))
    }

    /// Extracts the runtime code expression from the deploy code, with the
    /// immutables size; the runtime code is normalized.
    pub fn extract_runtime_code(&self) -> (r: Result<Option<(SeqInstruction, Expression)>, String>)
        ensures
            match self::instruction::seq::runtime_code(self.model()) {
                Some(Some((code, size))) => r matches Ok(Some((sequence, immutables_size)))
                    && sequence.items() == code && immutables_size.model() == size,
                Some(None) => r matches Ok(None),
                None => r matches Err(message) && if self.model() is Node && self.model()->Node_0
                    == Tag::Deploy {
                    is_prefix(not_sequence_prefix(), message@)
                } else {
                    is_prefix(not_code_prefix(), message@)
                },
            },
        decreases self,
    {
        proof {
            if let Expression::Instruction(Instruction::Opcode(op, _)) = self {
                self::tag::lemma_opcode_tag_plain(*op);
            }
        }
        match self {
            Expression::Instruction(Instruction::Sequence(sequence)) => {
                match sequence.extract_runtime_code()? {
                    Some((mut runtime_code, immutables_size)) => {
                        runtime_code.normalize_runtime_code();
                        Ok(Some((runtime_code, immutables_size)))
                    },
                    None => Ok(None),
                }
            },
            Expression::Instruction(Instruction::Deploy(deploy)) => {
                let copy = Deploy(Self::duplicate_all(&deploy.0));
                let (mut runtime_code, immutables_size) = copy.extract_runtime_code()?;
                runtime_code.normalize_runtime_code();
                Ok(Some((runtime_code, immutables_size)))
            },
            _ => {
                proof {
                    reveal_strlit("Expected [`seq`, `deploy`], found ");
                }
                Err(found_message("Expected [`seq`, `deploy`], found ", self))
            },
        }
    }

    /// Extracts the deploy code expression, normalized.
    pub fn try_into_deploy_code(self) -> (r: Result<SeqInstruction, String>)
        ensures
            match self.model() {
                Lll::Node(Tag::Sequence, items) => r matches Ok(sequence) && sequence.items()
                    == self::instruction::seq::normalized_deploy_code(items),
                Lll::Node(Tag::Deploy, _) => r matches Ok(sequence) && sequence.items() == seq![
                    self::instruction::ret::return_default(),
                ],
                _ => r matches Err(message) && is_prefix(not_code_prefix(), message@),
            },
    {
        proof {
            if let Expression::Instruction(Instruction::Opcode(op, _)) = self {
                self::tag::lemma_opcode_tag_plain(op);
            }
        }
        match self {
            Expression::Instruction(Instruction::Sequence(mut sequence)) => {
                sequence.normalize_deploy_code();
                Ok(sequence)
            },
            Expression::Instruction(Instruction::Deploy(_deploy)) => {
                let mut sequence = SeqInstruction::new();
                sequence.normalize_deploy_code();
                assert(Seq::<Lll>::empty().push(self::instruction::ret::return_default()) =~= seq![
                    self::instruction::ret::return_default(),
                ]);
                Ok(sequence)
            },
            other => {
                proof {
                    reveal_strlit("Expected [`seq`, `deploy`], found ");
                }
                Err(found_message("Expected [`seq`, `deploy`], found ", &other))
            },
        }
    }
}

/// Why code generation refuses an expression, where it does in itself: an
/// unknown expression with its value, or what refuses an instruction.
pub open spec fn expression_refusal(e: Lll, code: Option<CodeSegment>) -> Option<Seq<char>> {
    match e {
        Lll::Unknown(value) => Some("Unknown LLL expression: "@ + json_text(value)),
        _ => refusal_of(e, code),
    }
}

impl Expression {
    /// Why code generation refuses the expression in the code segment
    /// `code`, if it does in itself.
    pub fn refusal(&self, code: Option<CodeSegment>) -> (r: Option<String>)
        ensures
            match expression_refusal(self.model(), code) {
                Some(text) => r matches Some(message) && message@ == text,
                None => r is None,
            },
    {
        match self {
            Expression::Instruction(instruction) => instruction.refusal(code),
            Expression::Unknown(value) => {
                let mut text = chars_of("Unknown LLL expression: ");
                value.push_text(&mut text);
                Some(string_of(text.as_slice()))
            },
            _ => None,
        }
    }
}

} // verus!
