//! The Vyper contract function.

use vstd::prelude::*;

use crate::constants::FUNCTION_PREFIX_INTERNAL;
use crate::metadata::function::Function as FunctionMetadata;
use crate::project::contract::vyper::expression::Expression;
use crate::text::chars_of;
use crate::text::is_prefix;
use crate::text::same_text;
use crate::text::starts_with;

verus! {

/// The Vyper contract function.
#[derive(Debug)]
pub struct Function {
    /// The function name.
    pub name: String,
    /// The function metadata.
    pub metadata: Option<FunctionMetadata>,
    /// The function body expression.
    pub expression: Expression,
}

/// Whether a function takes the return buffer as an argument: an internal
/// function whose metadata gives it a return type.
pub open spec fn takes_return_buffer(name: Seq<char>, metadata: Option<FunctionMetadata>) -> bool {
    &&& is_prefix(FUNCTION_PREFIX_INTERNAL@, name)
    &&& metadata is Some
    &&& metadata->0.return_type_text().len() > 0
    &&& metadata->0.return_type_text() != "None"@
}

impl Function {
    /// A shortcut constructor.
    pub fn new(name: String, metadata: Option<FunctionMetadata>, expression: Expression) -> (r: Self)
        ensures
            r == (Function { name, metadata, expression }),
    {
        Self { name, metadata, expression }
    }

    /// The number of arguments the function is declared with: one, the
    /// return buffer, for an internal function with a return type; none
    /// otherwise.
    pub fn argument_count(&self) -> (r: usize)
        ensures
            r == if takes_return_buffer(self.name@, self.metadata) {
                1usize
            } else {
                0usize
            },
    {
        let name = chars_of(self.name.as_str());
        let prefix = chars_of(FUNCTION_PREFIX_INTERNAL);
        if !starts_with(name.as_slice(), prefix.as_slice()) {
            return 0;
        }
        match &self.metadata {
            Some(metadata) => {
                let return_type = metadata.return_type();
                if !return_type.is_empty() && !same_text(return_type, "None") {
                    1
                } else {
                    0
                }
            },
            None => 0,
        }
    }
}

} // verus!
