//! The `vyper --standard-json` expected output selection.

use vstd::prelude::*;
use vstd::string::StringExecFns;

use crate::string_map::StringMap;

verus! {

/// The `vyper --standard-json` expected output selection.
#[derive(Debug, Clone, Copy, PartialEq, Eq, Structural, Hash)]
pub enum Selection {
    /// The AST.
    AST,
    /// The function signature hashes JSON.
    MethodIdentifiers,
    /// The LLL IR.
    LLL,
}

impl Selection {
    /// The name of the selection, as `vyper` reads it.
    pub open spec fn name(self) -> Seq<char> {
        match self {
            Selection::AST => "ast"@,
            Selection::MethodIdentifiers => "evm.methodIdentifiers"@,
            Selection::LLL => "ir"@,
        }
    }

    /// The name of each value is the fixed name `vyper` reads for it, and no two values share a name.
    pub proof fn lemma_names()
        ensures
            Selection::AST.name() == "ast"@,
            Selection::MethodIdentifiers.name() == "evm.methodIdentifiers"@,
            Selection::LLL.name() == "ir"@,
            forall|a: Selection, b: Selection| #[trigger] a.name() == #[trigger] b.name() ==> a == b,
    {
        reveal_strlit("ast");
        reveal_strlit("evm.methodIdentifiers");
        reveal_strlit("ir");
        assert("ast"@.len() != "evm.methodIdentifiers"@.len());
        assert("ast"@.len() != "ir"@.len());
        assert("evm.methodIdentifiers"@.len() != "ir"@.len());
        assert forall|a: Selection, b: Selection| #[trigger] a.name() == #[trigger] b.name() implies a == b by {
            if a != b {
                assert(a.name() != b.name());
            }
        }
    }

    /// The default output selection: the method identifiers, the LLL IR and
    /// the AST, for every file.
    pub open spec fn default_pattern() -> Map<Seq<char>, Seq<Selection>> {
        map!["*"@ => seq![Selection::MethodIdentifiers, Selection::LLL, Selection::AST]]
    }

    /// Generates the default output selection pattern.
    pub fn generate_default() -> (r: StringMap<Vec<Selection>>)
        ensures
            r.map().dom() == Self::default_pattern().dom(),
            forall|file: Seq<char>| #[trigger] r.map().contains_key(file) ==> r.map()[file]@
                == Self::default_pattern()[file],
    {
        let mut map: StringMap<Vec<Selection>> = StringMap::new();
        let selections: Vec<Selection> = vec![Selection::MethodIdentifiers, Selection::LLL, Selection::AST];
        let ghost expected = selections@;
        assert(expected == seq![Selection::MethodIdentifiers, Selection::LLL, Selection::AST]);
        map.insert(String::from_str("*"), selections);
        assert(map.map().dom() =~= Self::default_pattern().dom());
        map
    }

    /// The name of the selection.
    pub fn to_string(&self) -> (r: String)
        ensures
            r@ == self.name(),
    {
        match self {
            Selection::AST => String::from_str("ast"),
            Selection::MethodIdentifiers => String::from_str("evm.methodIdentifiers"),
            Selection::LLL => String::from_str("ir"),
        }
    }
}

} // verus!
