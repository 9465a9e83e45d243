//! The `vyper --standard-json` optimizer setting.

use vstd::prelude::*;
use vstd::string::StringExecFns;

verus! {

/// The `vyper --standard-json` optimizer setting.
#[derive(Debug, Clone, Copy, PartialEq, Eq, Structural, Hash)]
pub enum Optimize {
    /// No optimizations.
    NoOptimization,
    /// Optimizing for gas usage.
    Gas,
    /// Optimizing for bytecode size.
    Size,
    /// Old boolean option for compatibility.
    False,
    /// Old boolean option for compatibility.
    True,
}

impl Optimize {
    /// The name of the setting, as `vyper` reads it.
    pub open spec fn name(self) -> Seq<char> {
        match self {
            Optimize::NoOptimization => "none"@,
            Optimize::Gas => "gas"@,
            Optimize::Size => "codesize"@,
            Optimize::False => "false"@,
            Optimize::True => "true"@,
        }
    }

    /// The name of each value is the fixed name `vyper` reads for it, and no two values share a name.
    pub proof fn lemma_names()
        ensures
            Optimize::NoOptimization.name() == "none"@,
            Optimize::Gas.name() == "gas"@,
            Optimize::Size.name() == "codesize"@,
            Optimize::False.name() == "false"@,
            Optimize::True.name() == "true"@,
            forall|a: Optimize, b: Optimize| #[trigger] a.name() == #[trigger] b.name() ==> a == b,
    {
        reveal_strlit("none");
        reveal_strlit("gas");
        reveal_strlit("codesize");
        reveal_strlit("false");
        reveal_strlit("true");
        assert("none"@.len() != "gas"@.len());
        assert("none"@.len() != "codesize"@.len());
        assert("none"@.len() != "false"@.len());
        assert("none"@[0] != "true"@[0]);
        assert("gas"@.len() != "codesize"@.len());
        assert("gas"@.len() != "false"@.len());
        assert("gas"@.len() != "true"@.len());
        assert("codesize"@.len() != "false"@.len());
        assert("codesize"@.len() != "true"@.len());
        assert("false"@.len() != "true"@.len());
        assert forall|a: Optimize, b: Optimize| #[trigger] a.name() == #[trigger] b.name() implies a == b by {
            if a != b {
                assert(a.name() != b.name());
            }
        }
    }

    /// The name of the setting.
    pub fn to_string(&self) -> (r: String)
        ensures
            r@ == self.name(),
    {
        match self {
            Optimize::NoOptimization => String::from_str("none"),
            Optimize::Gas => String::from_str("gas"),
            Optimize::Size => String::from_str("codesize"),
            Optimize::False => String::from_str("false"),
            Optimize::True => String::from_str("true"),
        }
    }
}

} // verus!
