//! The `vyper --standard-json` output.
//!
//! Unlike in the Solidity compiler, it is not passed up to the hardhat plugin, but only used here
//! internally to reduce the number of calls to the `vyper` subprocess.

pub mod contract;
pub mod error;

use vstd::prelude::*;
use vstd::string::StringExecFns;

use crate::json::push_string_literal;
use crate::json::string_literal;
use crate::json::JsonValue;
use crate::text::chars_of;
use crate::text::string_of;
use crate::string_map::StringMap;

use self::contract::Contract;
use self::error::Error;

verus! {

/// The `vyper --standard-json` output.
#[derive(Debug)]
pub struct Output {
    /// The contracts, by file and by name.
    pub contracts: Option<StringMap<StringMap<Contract>>>,
    /// The ASTs of the source files, by file.
    pub sources: Option<StringMap<JsonValue>>,
    /// The compilation errors and warnings.
    pub errors: Option<Vec<Error>>,
    /// The `vyper` compiler long version.
    pub long_version: Option<String>,
}

/// The JSON object written for an error.
pub open spec fn error_object(message: Seq<char>) -> Seq<char> {
    "{\"message\":"@ + string_literal(message) + "}"@
}

/// The JSON objects written for errors, separated by commas.
pub open spec fn error_objects(messages: Seq<Seq<char>>) -> Seq<char>
    decreases messages.len(),
{
    if messages.len() == 0 {
        Seq::empty()
    } else if messages.len() == 1 {
        error_object(messages[0])
    } else {
        error_objects(messages.drop_last()) + ","@ + error_object(messages.last())
    }
}

/// The messages of a sequence of errors.
pub open spec fn messages(errors: Seq<Error>) -> Seq<Seq<char>> {
    errors.map_values(|error: Error| error.message@)
}

/// The JSON text written for the errors of the output: `null` where there
/// are none, else an array of objects with the message of each.
pub open spec fn errors_json(errors: Option<Vec<Error>>) -> Seq<char> {
    match errors {
        None => "null"@,
        Some(errors) => "["@ + error_objects(messages(errors@)) + "]"@,
    }
}

impl Output {
    /// The JSON text of the output's errors.
    pub fn errors_json(&self) -> (r: String)
        ensures
            r@ == errors_json(self.errors),
    {
        let errors = match &self.errors {
            None => return String::from_str("null"),
            Some(errors) => errors,
        };
        let mut text: Vec<char> = chars_of("[");
        let opening = chars_of("{\"message\":");
        let closing = chars_of("}");
        let comma = chars_of(",");
        let ghost start = text@;
        let mut i: usize = 0;
        while i < errors.len()
            invariant
                i <= errors.len(),
                text@ == start + error_objects(messages(errors@.take(i as int))),
                opening@ == "{\"message\":"@,
                closing@ == "}"@,
                comma@ == ","@,
            decreases errors.len() - i,
        {
            let ghost before = text@;
            if i > 0 {
                text.extend_from_slice(comma.as_slice());
            }
            text.extend_from_slice(opening.as_slice());
            push_string_literal(errors[i].message.as_str(), &mut text);
            text.extend_from_slice(closing.as_slice());
            proof {
                let done = messages(errors@.take(i as int));
                let next = messages(errors@.take(i + 1));
                assert(next =~= done.push(errors@[i as int].message@));
                assert(next.drop_last() =~= done);
                if i > 0 {
                    assert(text@ =~= before + ","@ + error_object(errors@[i as int].message@));
                } else {
                    assert(text@ =~= before + error_object(errors@[i as int].message@));
                }
            }
            i = i + 1;
        }
        proof {
            assert(errors@.take(errors.len() as int) =~= errors@);
        }
        let end = chars_of("]");
        text.extend_from_slice(end.as_slice());
        proof {
            assert(text@ =~= errors_json(self.errors));
        }
        string_of(text.as_slice())
    }
}

} // verus!
