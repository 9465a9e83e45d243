//! The EVM version that `vyper` compiles for in batch mode.

use vstd::prelude::*;
use vstd::string::StringExecFns;

verus! {

/// The EVM version that `vyper` compiles for, one for each hard fork that
/// `era_compiler_common::EVMVersion` names.
#[derive(Debug, Clone, Copy, PartialEq, Eq, Structural, Hash)]
pub enum TargetEVMVersion {
    /// The `homestead` hard fork.
    Homestead,
    /// The `tangerineWhistle` hard fork.
    TangerineWhistle,
    /// The `spuriousDragon` hard fork.
    SpuriousDragon,
    /// The `byzantium` hard fork.
    Byzantium,
    /// The `constantinople` hard fork.
    Constantinople,
    /// The `petersburg` hard fork.
    Petersburg,
    /// The `istanbul` hard fork.
    Istanbul,
    /// The `berlin` hard fork.
    Berlin,
    /// The `london` hard fork.
    London,
    /// The `paris` hard fork.
    Paris,
    /// The `shanghai` hard fork.
    Shanghai,
    /// The `cancun` hard fork.
    Cancun,
    /// The `prague` hard fork.
    Prague,
}

impl TargetEVMVersion {
    /// The name of the version, as `--evm-version` takes it.
    pub open spec fn name(self) -> Seq<char> {
        match self {
            TargetEVMVersion::Homestead => "homestead"@,
            TargetEVMVersion::TangerineWhistle => "tangerineWhistle"@,
            TargetEVMVersion::SpuriousDragon => "spuriousDragon"@,
            TargetEVMVersion::Byzantium => "byzantium"@,
            TargetEVMVersion::Constantinople => "constantinople"@,
            TargetEVMVersion::Petersburg => "petersburg"@,
            TargetEVMVersion::Istanbul => "istanbul"@,
            TargetEVMVersion::Berlin => "berlin"@,
            TargetEVMVersion::London => "london"@,
            TargetEVMVersion::Paris => "paris"@,
            TargetEVMVersion::Shanghai => "shanghai"@,
            TargetEVMVersion::Cancun => "cancun"@,
            TargetEVMVersion::Prague => "prague"@,
        }
    }

    /// Each hard fork is named by its own name, as `--evm-version` takes
    /// it, and no two share a name.
    pub proof fn lemma_names()
        ensures
            TargetEVMVersion::Berlin.name() == "berlin"@,
            TargetEVMVersion::Byzantium.name() == "byzantium"@,
            TargetEVMVersion::Cancun.name() == "cancun"@,
            TargetEVMVersion::Constantinople.name() == "constantinople"@,
            TargetEVMVersion::Homestead.name() == "homestead"@,
            TargetEVMVersion::Istanbul.name() == "istanbul"@,
            TargetEVMVersion::London.name() == "london"@,
            TargetEVMVersion::Paris.name() == "paris"@,
            TargetEVMVersion::Petersburg.name() == "petersburg"@,
            TargetEVMVersion::Prague.name() == "prague"@,
            TargetEVMVersion::Shanghai.name() == "shanghai"@,
            TargetEVMVersion::SpuriousDragon.name() == "spuriousDragon"@,
            TargetEVMVersion::TangerineWhistle.name() == "tangerineWhistle"@,
            forall|a: TargetEVMVersion, b: TargetEVMVersion| #[trigger] a.name() == #[trigger] b.name() ==> a == b,
    {
        reveal_strlit("tangerineWhistle");
        reveal_strlit("spuriousDragon");
        reveal_strlit("shanghai");
        reveal_strlit("prague");
        reveal_strlit("petersburg");
        reveal_strlit("paris");
        reveal_strlit("london");
        reveal_strlit("istanbul");
        reveal_strlit("homestead");
        reveal_strlit("constantinople");
        reveal_strlit("cancun");
        reveal_strlit("byzantium");
        reveal_strlit("berlin");
        assert("berlin"@[0] != "cancun"@[0]);
        assert("berlin"@[0] != "london"@[0]);
        assert("berlin"@[0] != "prague"@[0]);
        assert("byzantium"@[0] != "homestead"@[0]);
        assert("cancun"@[0] != "london"@[0]);
        assert("cancun"@[0] != "prague"@[0]);
        assert("constantinople"@[0] != "spuriousDragon"@[0]);
        assert("istanbul"@[0] != "shanghai"@[0]);
        assert("london"@[0] != "prague"@[0]);
        assert forall|a: TargetEVMVersion, b: TargetEVMVersion| #[trigger] a.name() == #[trigger] b.name() implies a
            == b by {
            if a != b {
                assert(a.name().len() != b.name().len() || a.name() != b.name());
            }
        }
    }

    /// The name of the version.
    pub fn to_string(&self) -> (r: String)
        ensures
            r@ == self.name(),
    {
        match self {
            TargetEVMVersion::Homestead => String::from_str("homestead"),
            TargetEVMVersion::TangerineWhistle => String::from_str("tangerineWhistle"),
            TargetEVMVersion::SpuriousDragon => String::from_str("spuriousDragon"),
            TargetEVMVersion::Byzantium => String::from_str("byzantium"),
            TargetEVMVersion::Constantinople => String::from_str("constantinople"),
            TargetEVMVersion::Petersburg => String::from_str("petersburg"),
            TargetEVMVersion::Istanbul => String::from_str("istanbul"),
            TargetEVMVersion::Berlin => String::from_str("berlin"),
            TargetEVMVersion::London => String::from_str("london"),
            TargetEVMVersion::Paris => String::from_str("paris"),
            TargetEVMVersion::Shanghai => String::from_str("shanghai"),
            TargetEVMVersion::Cancun => String::from_str("cancun"),
            TargetEVMVersion::Prague => String::from_str("prague"),
        }
    }
}

} // verus!
