//! The `vyper --standard-json` EVM version.

use vstd::prelude::*;
use vstd::string::StringExecFns;

verus! {

/// The `vyper --standard-json` EVM version.
#[derive(Debug, Clone, Copy, PartialEq, Eq, Structural, Hash)]
pub enum EVMVersion {
    /// The corresponding EVM version.
    Byzantium,
    /// The corresponding EVM version.
    Constantinople,
    /// The corresponding EVM version.
    Petersburg,
    /// The corresponding EVM version.
    Istanbul,
    /// The corresponding EVM version.
    Berlin,
    /// The corresponding EVM version.
    Paris,
}

impl EVMVersion {
    /// The default EVM version: the latest.
    pub fn default() -> (r: Self)
        ensures
            r == EVMVersion::Paris,
    {
        EVMVersion::Paris
    }

    /// The name of the version, as `vyper` reads it.
    pub open spec fn name(self) -> Seq<char> {
        match self {
            EVMVersion::Byzantium => "byzantium"@,
            EVMVersion::Constantinople => "constantinople"@,
            EVMVersion::Petersburg => "petersburg"@,
            EVMVersion::Istanbul => "istanbul"@,
            EVMVersion::Berlin => "berlin"@,
            EVMVersion::Paris => "paris"@,
        }
    }

    /// The name of each value is the fixed name `vyper` reads for it, and no two values share a name.
    pub proof fn lemma_names()
        ensures
            EVMVersion::Byzantium.name() == "byzantium"@,
            EVMVersion::Constantinople.name() == "constantinople"@,
            EVMVersion::Petersburg.name() == "petersburg"@,
            EVMVersion::Istanbul.name() == "istanbul"@,
            EVMVersion::Berlin.name() == "berlin"@,
            EVMVersion::Paris.name() == "paris"@,
            forall|a: EVMVersion, b: EVMVersion| #[trigger] a.name() == #[trigger] b.name() ==> a == b,
    {
        reveal_strlit("byzantium");
        reveal_strlit("constantinople");
        reveal_strlit("petersburg");
        reveal_strlit("istanbul");
        reveal_strlit("berlin");
        reveal_strlit("paris");
        assert("byzantium"@.len() != "constantinople"@.len());
        assert("byzantium"@.len() != "petersburg"@.len());
        assert("byzantium"@.len() != "istanbul"@.len());
        assert("byzantium"@.len() != "berlin"@.len());
        assert("byzantium"@.len() != "paris"@.len());
        assert("constantinople"@.len() != "petersburg"@.len());
        assert("constantinople"@.len() != "istanbul"@.len());
        assert("constantinople"@.len() != "berlin"@.len());
        assert("constantinople"@.len() != "paris"@.len());
        assert("petersburg"@.len() != "istanbul"@.len());
        assert("petersburg"@.len() != "berlin"@.len());
        assert("petersburg"@.len() != "paris"@.len());
        assert("istanbul"@.len() != "berlin"@.len());
        assert("istanbul"@.len() != "paris"@.len());
        assert("berlin"@.len() != "paris"@.len());
        assert forall|a: EVMVersion, b: EVMVersion| #[trigger] a.name() == #[trigger] b.name() implies a == b by {
            if a != b {
                assert(a.name() != b.name());
            }
        }
    }

    /// The name of the version.
    pub fn to_string(&self) -> (r: String)
        ensures
            r@ == self.name(),
    {
        match self {
            EVMVersion::Byzantium => String::from_str("byzantium"),
            EVMVersion::Constantinople => String::from_str("constantinople"),
            EVMVersion::Petersburg => String::from_str("petersburg"),
            EVMVersion::Istanbul => String::from_str("istanbul"),
            EVMVersion::Berlin => String::from_str("berlin"),
            EVMVersion::Paris => String::from_str("paris"),
        }
    }
}

} // verus!
