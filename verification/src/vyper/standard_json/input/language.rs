//! The `vyper --standard-json` input language.

use vstd::prelude::*;
use vstd::string::StringExecFns;

verus! {

/// The `vyper --standard-json` input language.
#[derive(Debug, Clone, Copy, PartialEq, Eq, Structural, Hash)]
pub enum Language {
    /// The Vyper language.
    Vyper,
}

impl Language {
    /// The name of the language.
    pub open spec fn name(self) -> Seq<char> {
        match self {
            Language::Vyper => "Vyper"@,
        }
    }

    /// The name of each value is the fixed name `vyper` reads for it, and no two values share a name.
    pub proof fn lemma_names()
        ensures
            Language::Vyper.name() == "Vyper"@,
            forall|a: Language, b: Language| #[trigger] a.name() == #[trigger] b.name() ==> a == b,
    {
        reveal_strlit("Vyper");

        assert forall|a: Language, b: Language| #[trigger] a.name() == #[trigger] b.name() implies a == b by {
            if a != b {
                assert(a.name() != b.name());
            }
        }
    }

    /// The name of the language.
    pub fn to_string(&self) -> (r: String)
        ensures
            r@ == self.name(),
    {
        match self {
            Language::Vyper => String::from_str("Vyper"),
        }
    }
}

} // verus!
