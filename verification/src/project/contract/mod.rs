//! The contracts of a project.

pub mod eravm_assembly;
pub mod llvm_ir;
pub mod vyper;

use vstd::prelude::*;

use self::eravm_assembly::Contract as EraVMAssemblyContract;
use self::llvm_ir::Contract as LLVMIRContract;
use self::vyper::Contract as VyperContract;

verus! {

/// The contract.
#[derive(Debug)]
pub enum Contract {
    /// The Vyper contract.
    Vyper(VyperContract),
    /// The LLVM IR contract.
    LLVMIR(LLVMIRContract),
    /// The EraVM assembly contract.
    EraVMAssembly(EraVMAssemblyContract),
}

impl Contract {
    /// The source code of the contract, of whichever kind.
    pub open spec fn source_text(&self) -> Seq<char> {
        match self {
            Contract::Vyper(inner) => inner.source_code@,
            Contract::LLVMIR(inner) => inner.source_code@,
            Contract::EraVMAssembly(inner) => inner.source_code@,
        }
    }

    /// Returns the source code reference.
    pub fn source_code(&self) -> (r: &str)
        ensures
            r@ == self.source_text(),
    {
        match self {
            Contract::Vyper(inner) => inner.source_code.as_str(),
            Contract::LLVMIR(inner) => inner.source_code.as_str(),
            Contract::EraVMAssembly(inner) => inner.source_code.as_str(),
        }
    }
}

} // verus!
