//! The `vyper` output selection flag.

use vstd::prelude::*;
use vstd::string::StringExecFns;

use crate::text::same_text;

verus! {

/// The `vyper` output selection flag.
#[derive(Debug, Clone, Copy, PartialEq, Eq, Structural, Hash)]
pub enum Selection {
    /// The combined JSON.
    CombinedJson,
    /// The stringified LLL IR.
    IR,
    /// The JSON LLL IR.
    IRJson,
    /// The metadata.
    Metadata,
    /// The AST.
    AST,
    /// The ABI data.
    ABI,
    /// The method identifiers.
    MethodIdentifiers,
    /// The storage layout.
    Layout,
    /// The interface.
    Interface,
    /// The external interface.
    ExternalInterface,
    /// The user documentation.
    UserDocumentation,
    /// The developer documentation.
    DeveloperDocumentation,
}

impl Selection {
    /// The name of the flag, as `vyper -f` takes it.
    pub open spec fn name(self) -> Seq<char> {
        match self {
            Selection::CombinedJson => "combined_json"@,
            Selection::IR => "ir"@,
            Selection::IRJson => "ir_json"@,
            Selection::Metadata => "metadata"@,
            Selection::AST => "ast"@,
            Selection::ABI => "abi"@,
            Selection::MethodIdentifiers => "method_identifiers"@,
            Selection::Layout => "layout"@,
            Selection::Interface => "interface"@,
            Selection::ExternalInterface => "external_interface"@,
            Selection::UserDocumentation => "userdoc"@,
            Selection::DeveloperDocumentation => "devdoc"@,
        }
    }

    /// The name of each value is the fixed name `vyper` reads for it, and no two values share a name.
    pub proof fn lemma_names()
        ensures
            Selection::CombinedJson.name() == "combined_json"@,
            Selection::IR.name() == "ir"@,
            Selection::IRJson.name() == "ir_json"@,
            Selection::Metadata.name() == "metadata"@,
            Selection::AST.name() == "ast"@,
            Selection::ABI.name() == "abi"@,
            Selection::MethodIdentifiers.name() == "method_identifiers"@,
            Selection::Layout.name() == "layout"@,
            Selection::Interface.name() == "interface"@,
            Selection::ExternalInterface.name() == "external_interface"@,
            Selection::UserDocumentation.name() == "userdoc"@,
            Selection::DeveloperDocumentation.name() == "devdoc"@,
            Selection::from_name("combined_json"@) == Some(Selection::CombinedJson),
            Selection::from_name("ir"@) == Some(Selection::IR),
            Selection::from_name("ir_json"@) == Some(Selection::IRJson),
            Selection::from_name("metadata"@) == Some(Selection::Metadata),
            Selection::from_name("ast"@) == Some(Selection::AST),
            Selection::from_name("abi"@) == Some(Selection::ABI),
            Selection::from_name("method_identifiers"@) == Some(Selection::MethodIdentifiers),
            Selection::from_name("layout"@) == Some(Selection::Layout),
            Selection::from_name("interface"@) == Some(Selection::Interface),
            Selection::from_name("external_interface"@) == Some(Selection::ExternalInterface),
            Selection::from_name("userdoc"@) == Some(Selection::UserDocumentation),
            Selection::from_name("devdoc"@) == Some(Selection::DeveloperDocumentation),
            forall|a: Selection, b: Selection| #[trigger] a.name() == #[trigger] b.name() ==> a == b,
    {
        reveal_strlit("combined_json");
        reveal_strlit("ir");
        reveal_strlit("ir_json");
        reveal_strlit("metadata");
        reveal_strlit("ast");
        reveal_strlit("abi");
        reveal_strlit("method_identifiers");
        reveal_strlit("layout");
        reveal_strlit("interface");
        reveal_strlit("external_interface");
        reveal_strlit("userdoc");
        reveal_strlit("devdoc");
        assert("combined_json"@.len() != "ir"@.len());
        assert("combined_json"@.len() != "ir_json"@.len());
        assert("combined_json"@.len() != "metadata"@.len());
        assert("combined_json"@.len() != "ast"@.len());
        assert("combined_json"@.len() != "abi"@.len());
        assert("combined_json"@.len() != "method_identifiers"@.len());
        assert("combined_json"@.len() != "layout"@.len());
        assert("combined_json"@.len() != "interface"@.len());
        assert("combined_json"@.len() != "external_interface"@.len());
        assert("combined_json"@.len() != "userdoc"@.len());
        assert("combined_json"@.len() != "devdoc"@.len());
        assert("ir"@.len() != "ir_json"@.len());
        assert("ir"@.len() != "metadata"@.len());
        assert("ir"@.len() != "ast"@.len());
        assert("ir"@.len() != "abi"@.len());
        assert("ir"@.len() != "method_identifiers"@.len());
        assert("ir"@.len() != "layout"@.len());
        assert("ir"@.len() != "interface"@.len());
        assert("ir"@.len() != "external_interface"@.len());
        assert("ir"@.len() != "userdoc"@.len());
        assert("ir"@.len() != "devdoc"@.len());
        assert("ir_json"@.len() != "metadata"@.len());
        assert("ir_json"@.len() != "ast"@.len());
        assert("ir_json"@.len() != "abi"@.len());
        assert("ir_json"@.len() != "method_identifiers"@.len());
        assert("ir_json"@.len() != "layout"@.len());
        assert("ir_json"@.len() != "interface"@.len());
        assert("ir_json"@.len() != "external_interface"@.len());
        assert("ir_json"@[0] != "userdoc"@[0]);
        assert("ir_json"@.len() != "devdoc"@.len());
        assert("metadata"@.len() != "ast"@.len());
        assert("metadata"@.len() != "abi"@.len());
        assert("metadata"@.len() != "method_identifiers"@.len());
        assert("metadata"@.len() != "layout"@.len());
        assert("metadata"@.len() != "interface"@.len());
        assert("metadata"@.len() != "external_interface"@.len());
        assert("metadata"@.len() != "userdoc"@.len());
        assert("metadata"@.len() != "devdoc"@.len());
        assert("ast"@[1] != "abi"@[1]);
        assert("ast"@.len() != "method_identifiers"@.len());
        assert("ast"@.len() != "layout"@.len());
        assert("ast"@.len() != "interface"@.len());
        assert("ast"@.len() != "external_interface"@.len());
        assert("ast"@.len() != "userdoc"@.len());
        assert("ast"@.len() != "devdoc"@.len());
        assert("abi"@.len() != "method_identifiers"@.len());
        assert("abi"@.len() != "layout"@.len());
        assert("abi"@.len() != "interface"@.len());
        assert("abi"@.len() != "external_interface"@.len());
        assert("abi"@.len() != "userdoc"@.len());
        assert("abi"@.len() != "devdoc"@.len());
        assert("method_identifiers"@.len() != "layout"@.len());
        assert("method_identifiers"@.len() != "interface"@.len());
        assert("method_identifiers"@[0] != "external_interface"@[0]);
        assert("method_identifiers"@.len() != "userdoc"@.len());
        assert("method_identifiers"@.len() != "devdoc"@.len());
        assert("layout"@.len() != "interface"@.len());
        assert("layout"@.len() != "external_interface"@.len());
        assert("layout"@.len() != "userdoc"@.len());
        assert("layout"@[0] != "devdoc"@[0]);
        assert("interface"@.len() != "external_interface"@.len());
        assert("interface"@.len() != "userdoc"@.len());
        assert("interface"@.len() != "devdoc"@.len());
        assert("external_interface"@.len() != "userdoc"@.len());
        assert("external_interface"@.len() != "devdoc"@.len());
        assert("userdoc"@.len() != "devdoc"@.len());
        assert forall|a: Selection, b: Selection| #[trigger] a.name() == #[trigger] b.name() implies a == b by {
            if a != b {
                assert(a.name() != b.name());
            }
        }
    }

    /// The flag named `name`, if there is one.
    pub open spec fn from_name(name: Seq<char>) -> Option<Selection> {
        if name == "combined_json"@ {
            Some(Selection::CombinedJson)
        } else if name == "ir"@ {
            Some(Selection::IR)
        } else if name == "ir_json"@ {
            Some(Selection::IRJson)
        } else if name == "metadata"@ {
            Some(Selection::Metadata)
        } else if name == "ast"@ {
            Some(Selection::AST)
        } else if name == "abi"@ {
            Some(Selection::ABI)
        } else if name == "method_identifiers"@ {
            Some(Selection::MethodIdentifiers)
        } else if name == "layout"@ {
            Some(Selection::Layout)
        } else if name == "interface"@ {
            Some(Selection::Interface)
        } else if name == "external_interface"@ {
            Some(Selection::ExternalInterface)
        } else if name == "userdoc"@ {
            Some(Selection::UserDocumentation)
        } else if name == "devdoc"@ {
            Some(Selection::DeveloperDocumentation)
        } else {
            None
        }
    }

    /// Each flag is read back from its name.
    pub proof fn lemma_name_roundtrip(selection: Selection)
        ensures
            Self::from_name(selection.name()) == Some(selection),
    {
        reveal_strlit("combined_json");
        reveal_strlit("ir");
        reveal_strlit("ir_json");
        reveal_strlit("metadata");
        reveal_strlit("ast");
        reveal_strlit("abi");
        reveal_strlit("method_identifiers");
        reveal_strlit("layout");
        reveal_strlit("interface");
        reveal_strlit("external_interface");
        reveal_strlit("userdoc");
        reveal_strlit("devdoc");
        match selection {
            Selection::CombinedJson => {
                assert("combined_json"@ == Selection::CombinedJson.name());
            },
            Selection::IR => {
                assert("ir"@ == Selection::IR.name());
            },
            Selection::IRJson => {
                assert("ir_json"@ == Selection::IRJson.name());
            },
            Selection::Metadata => {
                assert("metadata"@ == Selection::Metadata.name());
            },
            Selection::AST => {
                assert("ast"@ == Selection::AST.name());
            },
            Selection::ABI => {
                assert("abi"@ == Selection::ABI.name());
                assert("abi"@[1] != "ast"@[1]);
            },
            Selection::MethodIdentifiers => {
                assert("method_identifiers"@ == Selection::MethodIdentifiers.name());
            },
            Selection::Layout => {
                assert("layout"@ == Selection::Layout.name());
            },
            Selection::Interface => {
                assert("interface"@ == Selection::Interface.name());
            },
            Selection::ExternalInterface => {
                assert("external_interface"@ == Selection::ExternalInterface.name());
                assert("external_interface"@[0] != "method_identifiers"@[0]);
            },
            Selection::UserDocumentation => {
                assert("userdoc"@ == Selection::UserDocumentation.name());
                assert("userdoc"@[0] != "ir_json"@[0]);
            },
            Selection::DeveloperDocumentation => {
                assert("devdoc"@ == Selection::DeveloperDocumentation.name());
                assert("devdoc"@[0] != "layout"@[0]);
            },
        }
    }

    /// Parses a flag from its name.
    pub fn from_str(string: &str) -> (r: Result<Selection, String>)
        ensures
            match Self::from_name(string@) {
                Some(selection) => r == Ok::<Selection, String>(selection),
                None => r matches Err(message) && message@ == "Unknown selection flag `"@ + string@
                    + "`"@,
            },
    {
        if same_text(string, "combined_json") {
            return Ok(Selection::CombinedJson);
        }
        if same_text(string, "ir") {
            return Ok(Selection::IR);
        }
        if same_text(string, "ir_json") {
            return Ok(Selection::IRJson);
        }
        if same_text(string, "metadata") {
            return Ok(Selection::Metadata);
        }
        if same_text(string, "ast") {
            return Ok(Selection::AST);
        }
        if same_text(string, "abi") {
            return Ok(Selection::ABI);
        }
        if same_text(string, "method_identifiers") {
            return Ok(Selection::MethodIdentifiers);
        }
        if same_text(string, "layout") {
            return Ok(Selection::Layout);
        }
        if same_text(string, "interface") {
            return Ok(Selection::Interface);
        }
        if same_text(string, "external_interface") {
            return Ok(Selection::ExternalInterface);
        }
        if same_text(string, "userdoc") {
            return Ok(Selection::UserDocumentation);
        }
        if same_text(string, "devdoc") {
            return Ok(Selection::DeveloperDocumentation);
        }
        let mut message = String::from_str("Unknown selection flag `");
        message.append(string);
        message.append("`");
        Err(message)
    }

    /// The name of the flag.
    pub fn to_string(&self) -> (r: String)
        ensures
            r@ == self.name(),
    {
        match self {
            Selection::CombinedJson => String::from_str("combined_json"),
            Selection::IR => String::from_str("ir"),
            Selection::IRJson => String::from_str("ir_json"),
            Selection::Metadata => String::from_str("metadata"),
            Selection::AST => String::from_str("ast"),
            Selection::ABI => String::from_str("abi"),
            Selection::MethodIdentifiers => String::from_str("method_identifiers"),
            Selection::Layout => String::from_str("layout"),
            Selection::Interface => String::from_str("interface"),
            Selection::ExternalInterface => String::from_str("external_interface"),
            Selection::UserDocumentation => String::from_str("userdoc"),
            Selection::DeveloperDocumentation => String::from_str("devdoc"),
        }
    }

    /// Whether `vyper` itself produces the output; every flag here is one
    /// of `vyper -f`.
    pub fn is_supported_by_vyper(&self) -> (r: bool)
        ensures
            r,
    {
        true
    }
}

} // verus!
