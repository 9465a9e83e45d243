//! A JSON document model: the form in which `vyper` hands its outputs over.

use vstd::prelude::*;
use vstd::string::StringExecFns;

use crate::text::chars_of;
use crate::text::decimal_u64;
use crate::text::equal_chars;
use crate::text::parse_u64;
use crate::string_map::StringMap;

verus! {

broadcast use vstd::std_specs::vec::group_vec_axioms;

/// A JSON value as read from `vyper` output.
///
/// Numbers keep the decimal text they were written with, so that integers
/// of any width (such as 256-bit LLL literals) pass through unchanged.
#[derive(Debug)]
pub enum JsonValue {
    /// The `null` literal.
    Null,
    /// A boolean literal.
    Bool(bool),
    /// A number, by its text.
    Number(String),
    /// A string.
    String(String),
    /// An array.
    Array(Vec<JsonValue>),
    /// An object, by its entries in the order of its keys, the order in
    /// which `serde_json` keeps them.
    Object(Vec<(String, JsonValue)>),
}

/// The mathematical value of a JSON document.
pub enum Json {
    Null,
    Bool(bool),
    Number(Seq<char>),
    Str(Seq<char>),
    Array(Seq<Json>),
    Object(Seq<(Seq<char>, Json)>),
}

impl JsonValue {
    /// The value of this document.
    pub open spec fn model(&self) -> Json
        decreases self,
    {
        match self {
            JsonValue::Null => Json::Null,
            JsonValue::Bool(b) => Json::Bool(*b),
            JsonValue::Number(n) => Json::Number(n@),
            JsonValue::String(s) => Json::Str(s@),
            JsonValue::Array(items) => Json::Array(Self::model_items(items@)),
            JsonValue::Object(fields) => Json::Object(Self::model_fields(fields@)),
        }
    }

    /// The values of a sequence of documents.
    pub open spec fn model_items(items: Seq<JsonValue>) -> Seq<Json>
        decreases items,
    {
        if items.len() == 0 {
            Seq::empty()
        } else {
            Self::model_items(items.drop_last()).push(items.last().model())
        }
    }

    /// The values of a sequence of object entries.
    pub open spec fn model_fields(fields: Seq<(String, JsonValue)>) -> Seq<(Seq<char>, Json)>
        decreases fields,
    {
        if fields.len() == 0 {
            Seq::empty()
        } else {
            Self::model_fields(fields.drop_last()).push(
                (fields.last().0@, fields.last().1.model()),
            )
        }
    }
}

impl JsonValue {
    /// The value of a sequence of documents grows by one value per pushed document.
    pub proof fn lemma_model_items_push(items: Seq<JsonValue>, item: JsonValue)
        ensures
            Self::model_items(items.push(item)) == Self::model_items(items).push(item.model()),
    {
        assert(items.push(item).drop_last() =~= items);
    }

    /// The value of a sequence of documents has one value per document.
    pub proof fn lemma_model_items_index(items: Seq<JsonValue>)
        ensures
            Self::model_items(items).len() == items.len(),
            forall|i: int| 0 <= i < items.len() ==> #[trigger] Self::model_items(items)[i] == items[i].model(),
        decreases items.len(),
    {
        if items.len() > 0 {
            Self::lemma_model_items_index(items.drop_last());
        }
    }

    /// The values of a sequence of entries grow by one value per pushed entry.
    pub proof fn lemma_model_fields_push(fields: Seq<(String, JsonValue)>, field: (String, JsonValue))
        ensures
            Self::model_fields(fields.push(field)) == Self::model_fields(fields).push(
                (field.0@, field.1.model()),
            ),
    {
        assert(fields.push(field).drop_last() =~= fields);
    }

    /// The values of a sequence of entries have one value per entry.
    pub proof fn lemma_model_fields_index(fields: Seq<(String, JsonValue)>)
        ensures
            Self::model_fields(fields).len() == fields.len(),
            forall|i: int|
                0 <= i < fields.len() ==> #[trigger] Self::model_fields(fields)[i] == (
                    fields[i].0@,
                    fields[i].1.model(),
                ),
        decreases fields.len(),
    {
        if fields.len() > 0 {
            Self::lemma_model_fields_index(fields.drop_last());
        }
    }

    /// A copy of the document.
    #[verifier::loop_isolation(false)]
    pub fn duplicate(&self) -> (r: JsonValue)
        ensures
            r.model() == self.model(),
        decreases self,
    {
        match self {
            JsonValue::Null => JsonValue::Null,
            JsonValue::Bool(b) => JsonValue::Bool(*b),
            JsonValue::Number(n) => JsonValue::Number(n.clone()),
            JsonValue::String(t) => JsonValue::String(t.clone()),
            JsonValue::Array(items) => {
                let mut copies: Vec<JsonValue> = Vec::new();
                let mut i: usize = 0;
                while i < items.len()
                    invariant
                        i <= items.len(),
                        Self::model_items(copies@) == Self::model_items(items@.take(i as int)),
                    decreases items.len() - i,
                {
                    proof {
                        assert(decreases_to!(*items => items@));
                        assert(decreases_to!(items@ => items@[i as int]));
                    }
                    let copy = items[i].duplicate();
                    proof {
                        Self::lemma_model_items_push(copies@, copy);
                        Self::lemma_model_items_push(items@.take(i as int), items@[i as int]);
                        assert(items@.take(i as int).push(items@[i as int]) =~= items@.take(i + 1));
                    }
                    copies.push(copy);
                    i = i + 1;
                }
                assert(items@.take(items.len() as int) =~= items@);
                JsonValue::Array(copies)
            },
            JsonValue::Object(fields) => {
                let mut copies: Vec<(String, JsonValue)> = Vec::new();
                let mut i: usize = 0;
                while i < fields.len()
                    invariant
                        i <= fields.len(),
                        Self::model_fields(copies@) == Self::model_fields(fields@.take(i as int)),
                    decreases fields.len() - i,
                {
                    proof {
                        assert(decreases_to!(*fields => fields@));
                        assert(decreases_to!(fields@ => fields@[i as int]));
                        assert(decreases_to!(fields@[i as int] => fields@[i as int].1));
                    }
                    let key = fields[i].0.clone();
                    let copy = fields[i].1.duplicate();
                    proof {
                        Self::lemma_model_fields_push(copies@, (key, copy));
                        Self::lemma_model_fields_push(fields@.take(i as int), fields@[i as int]);
                        assert(fields@.take(i as int).push(fields@[i as int]) =~= fields@.take(i + 1));
                    }
                    copies.push((key, copy));
                    i = i + 1;
                }
                assert(fields@.take(fields.len() as int) =~= fields@);
                JsonValue::Object(copies)
            },
        }
    }
}

/// The value of the first entry named `key`, if there is one.
pub open spec fn field_of(fields: Seq<(Seq<char>, Json)>, key: Seq<char>) -> Option<Json>
    decreases fields.len(),
{
    if fields.len() == 0 {
        None
    } else if fields[0].0 == key {
        Some(fields[0].1)
    } else {
        field_of(fields.drop_first(), key)
    }
}

impl Json {
    /// The value of an object's entry named `key`; nothing for other values.
    pub open spec fn get(self, key: Seq<char>) -> Option<Json> {
        match self {
            Json::Object(fields) => field_of(fields, key),
            _ => None,
        }
    }

    /// The text of an object's entry named `key`, if that entry is a string.
    pub open spec fn get_str(self, key: Seq<char>) -> Option<Seq<char>> {
        match self.get(key) {
            Some(Json::Str(text)) => Some(text),
            _ => None,
        }
    }

    /// The number of an object's entry named `key`, if that entry is an
    /// unsigned integer that fits in 64 bits.
    pub open spec fn get_u64(self, key: Seq<char>) -> Option<u64> {
        match self.get(key) {
            Some(Json::Number(text)) => decimal_u64(text),
            _ => None,
        }
    }
}

impl JsonValue {
    /// The value of an object's entry named `key`; nothing for other values.
    pub fn get(&self, key: &str) -> (r: Option<&JsonValue>)
        ensures
            match r {
                Some(value) => self.model().get(key@) == Some(value.model()),
                None => self.model().get(key@) is None,
            },
    {
        match self {
            JsonValue::Object(fields) => {
                let key_chars = chars_of(key);
                let ghost all = Self::model_fields(fields@);
                proof {
                    Self::lemma_model_fields_index(fields@);
                    assert(all.skip(0) =~= all);
                }
                let mut i: usize = 0;
                while i < fields.len()
                    invariant
                        i <= fields.len(),
                        all == Self::model_fields(fields@),
                        self.model() == Json::Object(all),
                        all.len() == fields.len(),
                        key_chars@ == key@,
                        field_of(all, key@) == field_of(all.skip(i as int), key@),
                        forall|j: int|
                            0 <= j < fields.len() ==> #[trigger] all[j] == (fields@[j].0@, fields@[j].1.model()),
                    decreases fields.len() - i,
                {
                    let name = chars_of(fields[i].0.as_str());
                    proof {
                        assert(all.skip(i as int)[0] == all[i as int]);
                        assert(all.skip(i as int).drop_first() =~= all.skip(i + 1));
                    }
                    if equal_chars(name.as_slice(), key_chars.as_slice()) {
                        proof {
                            assert(all[i as int].0 == key@);
                            assert(field_of(all.skip(i as int), key@) == Some(all[i as int].1));
                            assert(fields[i as int].1.model() == all[i as int].1);
                        }
                        return Some(&fields[i].1);
                    }
                    i = i + 1;
                }
                None
            },
            _ => None,
        }
    }

    /// The text of an object's entry named `key`, if that entry is a string.
    pub fn get_str(&self, key: &str) -> (r: Option<&String>)
        ensures
            match r {
                Some(text) => self.model().get_str(key@) == Some(text@),
                None => self.model().get_str(key@) is None,
            },
    {
        match self.get(key) {
            Some(JsonValue::String(text)) => Some(text),
            _ => None,
        }
    }

    /// The number of an object's entry named `key`, if that entry is an
    /// unsigned integer that fits in 64 bits.
    pub fn get_u64(&self, key: &str) -> (r: Option<u64>)
        ensures
            r == self.model().get_u64(key@),
    {
        match self.get(key) {
            Some(JsonValue::Number(text)) => {
                let digits = chars_of(text.as_str());
                parse_u64(digits.as_slice())
            },
            _ => None,
        }
    }
}

/// A hexadecimal digit, in lower case.
pub open spec fn hex_digit(d: nat) -> char {
    if d < 10 {
        (d + '0' as int) as char
    } else {
        (d - 10 + 'a' as int) as char
    }
}

/// How a character is written inside a JSON string: quotes, backslashes
/// and control characters are escaped, the short escapes where JSON has
/// them; anything else is written as it is.
pub open spec fn escaped_char(c: char) -> Seq<char> {
    if c == '"' {
        seq!['\\', '"']
    } else if c == '\\' {
        seq!['\\', '\\']
    } else if c == '\n' {
        seq!['\\', 'n']
    } else if c == '\r' {
        seq!['\\', 'r']
    } else if c == '\t' {
        seq!['\\', 't']
    } else if c == '\x08' {
        seq!['\\', 'b']
    } else if c == '\x0c' {
        seq!['\\', 'f']
    } else if (c as int) < 32 {
        seq!['\\', 'u', '0', '0', hex_digit(c as nat / 16), hex_digit(c as nat % 16)]
    } else {
        seq![c]
    }
}

/// How a text is written inside a JSON string.
pub open spec fn escaped(text: Seq<char>) -> Seq<char>
    decreases text.len(),
{
    if text.len() == 0 {
        Seq::empty()
    } else {
        escaped(text.drop_last()) + escaped_char(text.last())
    }
}

/// A JSON string literal holding a text.
pub open spec fn string_literal(text: Seq<char>) -> Seq<char> {
    seq!['"'] + escaped(text) + seq!['"']
}

/// Appends how a character is written inside a JSON string.
fn push_escaped_char(c: char, out: &mut Vec<char>)
    ensures
        final(out)@ == old(out)@ + escaped_char(c),
{
    let ghost start = out@;
    if c == '"' || c == '\\' || c == '\n' || c == '\r' || c == '\t' || c == '\x08' || c == '\x0c' {
        out.push('\\');
        let short = if c == '"' {
            '"'
        } else if c == '\\' {
            '\\'
        } else if c == '\n' {
            'n'
        } else if c == '\r' {
            'r'
        } else if c == '\t' {
            't'
        } else if c == '\x08' {
            'b'
        } else {
            'f'
        };
        out.push(short);
        assert(out@ =~= start + escaped_char(c));
    } else if (c as u32) < 32 {
        let code: u32 = c as u32;
        let high = if code < 16 {
            '0'
        } else {
            '1'
        };
        let low = match code % 16 {
            0 => '0',
            1 => '1',
            2 => '2',
            3 => '3',
            4 => '4',
            5 => '5',
            6 => '6',
            7 => '7',
            8 => '8',
            9 => '9',
            10 => 'a',
            11 => 'b',
            12 => 'c',
            13 => 'd',
            14 => 'e',
            _ => 'f',
        };
        assert(high == hex_digit(c as nat / 16));
        assert(low == hex_digit(c as nat % 16));
        out.push('\\');
        out.push('u');
        out.push('0');
        out.push('0');
        out.push(high);
        out.push(low);
        assert(out@ =~= start + escaped_char(c));
    } else {
        out.push(c);
        assert(out@ =~= start + escaped_char(c));
    }
}

/// Appends a JSON string literal holding a text.
pub fn push_string_literal(text: &str, out: &mut Vec<char>)
    ensures
        final(out)@ == old(out)@ + string_literal(text@),
{
    let chars = chars_of(text);
    let ghost start = out@;
    out.push('"');
    let mut i: usize = 0;
    while i < chars.len()
        invariant
            i <= chars.len(),
            out@ == start + seq!['"'] + escaped(chars@.take(i as int)),
        decreases chars.len() - i,
    {
        push_escaped_char(chars[i], out);
        proof {
            assert(chars@.take(i + 1).drop_last() =~= chars@.take(i as int));
        }
        i = i + 1;
    }
    proof {
        assert(chars@.take(chars.len() as int) =~= chars@);
    }
    out.push('"');
    assert(out@ =~= start + string_literal(text@));
}

/// The compact JSON text of a value, as `serde_json` displays it: numbers
/// by their text, strings escaped, and no space between the parts.
pub open spec fn json_text(j: Json) -> Seq<char>
    decreases j,
{
    match j {
        Json::Null => "null"@,
        Json::Bool(b) => if b {
            "true"@
        } else {
            "false"@
        },
        Json::Number(text) => text,
        Json::Str(text) => string_literal(text),
        Json::Array(items) => "["@ + items_text(items) + "]"@,
        Json::Object(fields) => "{"@ + fields_text(fields) + "}"@,
    }
}

/// The texts of values, separated by commas.
pub open spec fn items_text(items: Seq<Json>) -> Seq<char>
    decreases items,
{
    if items.len() == 0 {
        Seq::empty()
    } else if items.len() == 1 {
        json_text(items[0])
    } else {
        items_text(items.drop_last()) + ","@ + json_text(items.last())
    }
}

/// The texts of object entries, each its key, a colon and its value,
/// separated by commas.
pub open spec fn fields_text(fields: Seq<(Seq<char>, Json)>) -> Seq<char>
    decreases fields,
{
    if fields.len() == 0 {
        Seq::empty()
    } else if fields.len() == 1 {
        string_literal(fields[0].0) + ":"@ + json_text(fields[0].1)
    } else {
        fields_text(fields.drop_last()) + ","@ + string_literal(fields.last().0) + ":"@ + json_text(
            fields.last().1,
        )
    }
}

impl JsonValue {
    /// Writes the compact JSON text of the value.
    pub fn push_text(&self, out: &mut Vec<char>)
        ensures
            final(out)@ == old(out)@ + json_text(self.model()),
        decreases self, 1nat,
    {
        match self {
            JsonValue::Null => {
                out.extend_from_slice(chars_of("null").as_slice());
            },
            JsonValue::Bool(b) => {
                if *b {
                    out.extend_from_slice(chars_of("true").as_slice());
                } else {
                    out.extend_from_slice(chars_of("false").as_slice());
                }
            },
            JsonValue::Number(n) => {
                out.extend_from_slice(chars_of(n.as_str()).as_slice());
            },
            JsonValue::String(t) => {
                push_string_literal(t.as_str(), out);
            },
            JsonValue::Array(items) => {
                let ghost start = out@;
                out.extend_from_slice(chars_of("[").as_slice());
                proof {
                    assert(decreases_to!(self => *items));
                }
                Self::push_items_text(items, out);
                out.extend_from_slice(chars_of("]").as_slice());
                proof {
                    assert(out@ =~= start + json_text(self.model()));
                }
            },
            JsonValue::Object(fields) => {
                let ghost start = out@;
                out.extend_from_slice(chars_of("{").as_slice());
                proof {
                    assert(decreases_to!(self => *fields));
                }
                Self::push_fields_text(fields, out);
                out.extend_from_slice(chars_of("}").as_slice());
                proof {
                    assert(out@ =~= start + json_text(self.model()));
                }
            },
        }
    }

    /// Writes the texts of values, separated by commas.
    fn push_items_text(items: &Vec<JsonValue>, out: &mut Vec<char>)
        ensures
            final(out)@ == old(out)@ + items_text(Self::model_items(items@)),
        decreases items, 0nat,
    {
        let ghost start = out@;
        let mut i: usize = 0;
        proof {
            assert(items@.take(0) =~= Seq::<JsonValue>::empty());
            assert(out@ =~= start + items_text(Self::model_items(items@.take(0))));
        }
        while i < items.len()
            invariant
                i <= items.len(),
                out@ == start + items_text(Self::model_items(items@.take(i as int))),
            decreases items.len() - i,
        {
            proof {
                assert(decreases_to!(*items => items@));
                assert(decreases_to!(items@ => items@[i as int]));
            }
            if i > 0 {
                out.extend_from_slice(chars_of(",").as_slice());
            }
            items[i].push_text(out);
            proof {
                Self::lemma_model_items_push(items@.take(i as int), items@[i as int]);
                assert(items@.take(i as int).push(items@[i as int]) =~= items@.take(i + 1));
                let next = Self::model_items(items@.take(i + 1));
                assert(next.drop_last() =~= Self::model_items(items@.take(i as int)));
                Self::lemma_model_items_index(items@.take(i as int));
                assert(out@ =~= start + items_text(next));
            }
            i = i + 1;
        }
        proof {
            assert(items@.take(items.len() as int) =~= items@);
        }
    }

    /// Writes the texts of object entries, separated by commas.
    fn push_fields_text(fields: &Vec<(String, JsonValue)>, out: &mut Vec<char>)
        ensures
            final(out)@ == old(out)@ + fields_text(Self::model_fields(fields@)),
        decreases fields, 0nat,
    {
        let ghost start = out@;
        let mut i: usize = 0;
        proof {
            assert(fields@.take(0) =~= Seq::<(String, JsonValue)>::empty());
            assert(out@ =~= start + fields_text(Self::model_fields(fields@.take(0))));
        }
        while i < fields.len()
            invariant
                i <= fields.len(),
                out@ == start + fields_text(Self::model_fields(fields@.take(i as int))),
            decreases fields.len() - i,
        {
            proof {
                assert(decreases_to!(*fields => fields@));
                assert(decreases_to!(fields@ => fields@[i as int]));
                assert(decreases_to!(fields@[i as int] => fields@[i as int].1));
            }
            if i > 0 {
                out.extend_from_slice(chars_of(",").as_slice());
            }
            push_string_literal(fields[i].0.as_str(), out);
            out.extend_from_slice(chars_of(":").as_slice());
            fields[i].1.push_text(out);
            proof {
                Self::lemma_model_fields_push(fields@.take(i as int), fields@[i as int]);
                assert(fields@.take(i as int).push(fields@[i as int]) =~= fields@.take(i + 1));
                let next = Self::model_fields(fields@.take(i + 1));
                assert(next.drop_last() =~= Self::model_fields(fields@.take(i as int)));
                Self::lemma_model_fields_index(fields@.take(i as int));
                assert(out@ =~= start + fields_text(next));
            }
            i = i + 1;
        }
        proof {
            assert(fields@.take(fields.len() as int) =~= fields@);
        }
    }
}

/// A JSON document as `serde_json` holds it.
#[verifier::external_type_specification]
#[verifier::external_body]
pub struct ExJsonDocument(serde_json::Value);

/// What `era_compiler_common::deserialize_from_str` reads from a text as a
/// `serde_json::Value`: the document, or the text of the error.
pub uninterp spec fn json_parsed(text: Seq<char>) -> Result<Json, Seq<char>>;

/// The document a `serde_json::Value` holds, entry by entry and element by
/// element, with each number by the text `serde_json` writes it as.
#[verifier::external_body]
fn json_value_of(value: serde_json::Value) -> JsonValue {
    match value {
        serde_json::Value::Null => JsonValue::Null,
        serde_json::Value::Bool(boolean) => JsonValue::Bool(boolean),
        serde_json::Value::Number(number) => JsonValue::Number(number.to_string()),
        serde_json::Value::String(string) => JsonValue::String(string),
        serde_json::Value::Array(items) => JsonValue::Array(items.into_iter().map(json_value_of).collect()),
        serde_json::Value::Object(fields) => JsonValue::Object(
            fields.into_iter().map(|(key, value)| (key, json_value_of(value))).collect(),
        ),
    }
}

/// Reads a JSON document with `era_compiler_common::deserialize_from_str`,
/// which parses with `serde_json` with the recursion limit lifted.
///
/// Trusted: the document, or the error's text, is what that function makes
/// of the text; nothing more is claimed of it.
#[verifier::external_body]
pub(crate) fn parse_json(text: &str) -> (r: Result<JsonValue, String>)
    ensures
        match r {
            Ok(document) => json_parsed(text@) == Ok::<Json, Seq<char>>(document.model()),
            Err(error) => json_parsed(text@) == Err::<Json, Seq<char>>(error@),
        },
{
    match era_compiler_common::deserialize_from_str::<serde_json::Value>(text) {
        Ok(value) => Ok(json_value_of(value)),
        Err(error) => Err(error.to_string()),
    }
}

/// Whether every entry of an object is a string.
pub open spec fn all_strings(fields: Seq<(Seq<char>, Json)>) -> bool {
    forall|i: int| 0 <= i < fields.len() ==> (#[trigger] fields[i]).1 is Str
}

/// The map from names to texts that an object of strings denotes: a later
/// entry of a name replaces an earlier one.
pub open spec fn string_fields_map(fields: Seq<(Seq<char>, Json)>) -> Map<Seq<char>, Seq<char>>
    decreases fields.len(),
{
    if fields.len() == 0 {
        Map::empty()
    } else {
        string_fields_map(fields.drop_last()).insert(fields.last().0, fields.last().1->Str_0)
    }
}

/// The map from names to texts a document denotes, if it is an object of
/// strings.
pub open spec fn strings_object(j: Json) -> Option<Map<Seq<char>, Seq<char>>> {
    match j {
        Json::Object(fields) => if all_strings(fields) {
            Some(string_fields_map(fields))
        } else {
            None
        },
        _ => None,
    }
}

/// The refusal of a document that is no object of strings.
pub open spec fn not_strings_message() -> Seq<char> {
    "invalid type: expected a map of strings"@
}

/// The texts held by a map of strings.
pub open spec fn texts(m: Map<Seq<char>, String>) -> Map<Seq<char>, Seq<char>> {
    m.map_values(|text: String| text@)
}

impl JsonValue {
    /// Reads an object of strings as a map from names to texts.
    pub fn to_string_map(&self) -> (r: Result<StringMap<String>, String>)
        ensures
            match r {
                Ok(map) => strings_object(self.model()) == Some(texts(map.map())),
                Err(message) => strings_object(self.model()) is None && message@ == not_strings_message(),
            },
    {
        let fields = match self {
            JsonValue::Object(fields) => fields,
            _ => return Err(String::from_str("invalid type: expected a map of strings")),
        };
        proof {
            Self::lemma_model_fields_index(fields@);
        }
        let mut map: StringMap<String> = StringMap::new();
        let mut i: usize = 0;
        proof {
            assert(texts(map.map()) =~= Map::empty());
        }
        while i < fields.len()
            invariant
                i <= fields.len(),
                self.model() == Json::Object(Self::model_fields(fields@)),
                Self::model_fields(fields@).len() == fields.len(),
                forall|j: int|
                    0 <= j < fields.len() ==> #[trigger] Self::model_fields(fields@)[j] == (
                        fields@[j].0@,
                        fields@[j].1.model(),
                    ),
                all_strings(Self::model_fields(fields@).take(i as int)),
                texts(map.map()) == string_fields_map(Self::model_fields(fields@).take(i as int)),
            decreases fields.len() - i,
        {
            let ghost all = Self::model_fields(fields@);
            match &fields[i].1 {
                JsonValue::String(text) => {
                    let ghost before = map.map();
                    map.insert(fields[i].0.clone(), text.clone());
                    proof {
                        assert(all.take(i + 1).drop_last() =~= all.take(i as int));
                        assert(all.take(i + 1).last() == all[i as int]);
                        assert(texts(map.map()) =~= texts(before).insert(fields@[i as int].0@, text@));
                        assert(all_strings(all.take(i + 1)));
                    }
                },
                _ => {
                    proof {
                        assert(!all_strings(all)) by {
                            assert(!(all[i as int].1 is Str));
                        }
                    }
                    return Err(String::from_str("invalid type: expected a map of strings"));
                },
            }
            i = i + 1;
        }
        proof {
            assert(Self::model_fields(fields@).take(fields.len() as int) =~= Self::model_fields(fields@));
        }
        Ok(map)
    }
}

} // verus!
