//! The `vyper --standard-json` input settings.

pub mod evm_version;
pub mod optimize;
pub mod selection;

use vstd::prelude::*;

use era_compiler_common::EVMVersion as EraVMEVMVersion;

use crate::string_map::StringMap;

use self::optimize::Optimize;
use self::selection::Selection;

verus! {

/// The EVM version of the EraVM compiler toolchain, carried through to
/// `vyper` unchanged.
#[verifier::external_type_specification]
#[verifier::external_body]
pub struct ExEVMVersion(EraVMEVMVersion);

/// The `vyper --standard-json` input settings.
#[derive(Debug)]
pub struct Settings {
    /// The EVM version. The latest is the most lightweight, but must be ignored by `vyper`.
    pub evm_version: Option<era_compiler_common::EVMVersion>,
    /// The output selection filters.
    pub output_selection: StringMap<Vec<Selection>>,
    /// Whether the optimizer is enabled.
    pub optimize: Optimize,
    /// Whether to enable decimals: present only where they are enabled.
    pub enable_decimals: Option<bool>,
    /// Whether to try to recompile with -Oz if the bytecode is too large.
    pub fallback_to_optimizing_for_size: Option<bool>,
    /// The LLVM extra options.
    pub llvm_options: Option<Vec<String>>,
}

impl Settings {
    /// A shortcut constructor.
    pub fn new(
        evm_version: Option<era_compiler_common::EVMVersion>,
        output_selection: StringMap<Vec<Selection>>,
        optimize: Optimize,
        enable_decimals: bool,
        fallback_to_optimizing_for_size: bool,
        llvm_options: Vec<String>,
    ) -> (r: Self)
        ensures
            r.evm_version == evm_version,
            r.output_selection == output_selection,
            r.optimize == optimize,
            r.enable_decimals == (if enable_decimals {
                Some(true)
            } else {
                None
            }),
            r.fallback_to_optimizing_for_size == Some(fallback_to_optimizing_for_size),
            r.llvm_options == Some(llvm_options),
    {
        Self {
            evm_version,
            output_selection,
            optimize,
            enable_decimals: if enable_decimals {
                Some(enable_decimals)
            } else {
                None
            },
            fallback_to_optimizing_for_size: Some(fallback_to_optimizing_for_size),
            llvm_options: Some(llvm_options),
        }
    }
}

} // verus!
