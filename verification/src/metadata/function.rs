//! The Vyper metadata function.

use vstd::prelude::*;

verus! {

/// The Vyper metadata function.
#[derive(Debug)]
pub struct Function {
    /// The function name.
    name: String,
    /// The function return type.
    return_type: String,
    /// The identifier in the LLL IR.
    ir_identifier: String,
}

impl Function {
    /// A shortcut constructor.
    pub fn new(name: String, return_type: String, ir_identifier: String) -> (r: Self)
        ensures
            r.name_text() == name@,
            r.return_type_text() == return_type@,
            r.ir_identifier_text() == ir_identifier@,
    {
        Self { name, return_type, ir_identifier }
    }

    /// The function name.
    pub closed spec fn name_text(&self) -> Seq<char> {
        self.name@
    }

    /// The function return type.
    pub closed spec fn return_type_text(&self) -> Seq<char> {
        self.return_type@
    }

    /// The identifier in the LLL IR.
    pub closed spec fn ir_identifier_text(&self) -> Seq<char> {
        self.ir_identifier@
    }

    /// Returns the name.
    pub fn name(&self) -> (r: &str)
        ensures
            r@ == self.name_text(),
    {
        self.name.as_str()
    }

    /// Returns the return type.
    pub fn return_type(&self) -> (r: &str)
        ensures
            r@ == self.return_type_text(),
    {
        self.return_type.as_str()
    }
}

} // verus!
