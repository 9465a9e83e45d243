//! Compiler warning type.

use vstd::prelude::*;
use vstd::string::StringExecFns;

use crate::text::same_text;

verus! {

/// Compiler warning type.
#[derive(Debug, Clone, Copy, PartialEq, Eq, Structural, Hash)]
pub enum WarningType {
    /// The warning for eponymous feature.
    TxOrigin,
}

impl WarningType {
    /// The warning type named `name` on the command line, if there is one.
    pub open spec fn from_name(name: Seq<char>) -> Option<WarningType> {
        if name == "txorigin"@ {
            Some(WarningType::TxOrigin)
        } else {
            None
        }
    }

    /// Each name the command line takes is read as its own value, and a
    /// name that differs in case or spelling names nothing.
    pub proof fn lemma_names()
        ensures
            Self::from_name("txorigin"@) == Some(WarningType::TxOrigin),
            Self::from_name("TxOrigin"@) is None,
            Self::from_name("tx_origin"@) is None,
    {
        reveal_strlit("txorigin");
        reveal_strlit("TxOrigin");
        reveal_strlit("tx_origin");
        assert("txorigin"@[0] != "TxOrigin"@[0]);
        assert("txorigin"@.len() != "tx_origin"@.len());
    }

    /// The error a name that names no warning type is answered with.
    pub open spec fn invalid_name_message(name: Seq<char>) -> Seq<char> {
        "invalid warning type: "@ + name
    }

    /// Parses a warning type from its command line name.
    pub fn from_str(string: &str) -> (r: Result<WarningType, String>)
        ensures
            match Self::from_name(string@) {
                Some(value) => r == Ok::<WarningType, String>(value),
                None => r matches Err(message) && message@ == Self::invalid_name_message(string@),
            },
    {
        if same_text(string, "txorigin") {
            Ok(WarningType::TxOrigin)
        } else {
            let mut message = String::from_str("invalid warning type: ");
            message.append(string);
            Err(message)
        }
    }

    /// Converts string arguments into an array of warning types.
    ///
    /// The first string that names no warning type is reported.
    pub fn try_from_strings(strings: &[String]) -> (r: Result<Vec<WarningType>, String>)
        ensures
            match r {
                Ok(values) => {
                    &&& forall|i: int| 0 <= i < strings.len() ==> (#[trigger] Self::from_name(strings@[i]@)) is Some
                    &&& values.len() == strings.len()
                    &&& forall|i: int| 0 <= i < strings.len() ==> Some(#[trigger] values@[i]) == Self::from_name(strings@[i]@)
                },
                Err(message) => exists|i: int| {
                    &&& 0 <= i < strings.len()
                    &&& Self::from_name(strings@[i]@) is None
                    &&& forall|j: int| 0 <= j < i ==> (#[trigger] Self::from_name(strings@[j]@)) is Some
                    &&& message@ == Self::invalid_name_message(strings@[i]@)
                },
            },
    {
        let mut values: Vec<WarningType> = Vec::new();
        let mut i: usize = 0;
        while i < strings.len()
            invariant
                i <= strings.len(),
                values.len() == i,
                forall|j: int| 0 <= j < i ==> (#[trigger] Self::from_name(strings@[j]@)) is Some,
                forall|j: int| 0 <= j < i ==> Some(#[trigger] values@[j]) == Self::from_name(strings@[j]@),
            decreases strings.len() - i,
        {
            match Self::from_str(strings[i].as_str()) {
                Ok(value) => values.push(value),
                Err(message) => {
                    assert(Self::from_name(strings@[i as int]@) is None);
                    return Err(message);
                },
            }
            i = i + 1;
        }
        Ok(values)
    }

    /// The command line name of the warning type.
    pub fn to_string(&self) -> (r: String)
        ensures
            Self::from_name(r@) == Some(*self),
    {
        match self {
            WarningType::TxOrigin => String::from_str("txorigin"),
        }
    }
}

} // verus!
