//! Low level assembly generation.
//!
//! There is one module for each backend. A backend takes a compilation unit
//! of its own word width and lowers its functions one by one; physical
//! registers are assigned in this step.
use vstd::prelude::*;

use crate::generator::high::{CompilationUnit, FunctionRef, USize32, USize64};

pub mod aarch64;
pub mod assembler;
pub mod x86_64;

verus! {

/// Why a function could not be lowered.
#[derive(Copy, Clone, Debug, PartialEq, Eq)]
pub enum LoweringErrorKind {
    /// A conditional jump lands outside the function.
    OffsetOutOfRange,
    /// The function uses more virtual registers than there are physical
    /// registers to give them. Nothing is spilled to memory.
    RegisterBudgetExceeded { needed: usize, available: usize },
    /// The operands of an instruction are of a shape that has no encoding:
    /// memory where only a register can be, or the destination of an
    /// arithmetic instruction not being one of its operands.
    UnsupportedOperandShape,
    /// The instruction has no encoding for values of this width.
    UnsupportedWidth,
    /// The instruction is known but its lowering has not been written. The
    /// name says which.
    UnimplementedFeature(&'static str),
    /// The assembler refused what it was given.
    Assembler,
}

/// A failed lowering: what went wrong, and where.
#[derive(Copy, Clone, Debug, PartialEq, Eq)]
pub struct LoweringError<'name> {
    pub kind: LoweringErrorKind,
    /// The function's place in its compilation unit, where a unit was lowered.
    pub function: Option<FunctionRef>,
    /// The function's name, where the failure belongs to one function.
    pub name: Option<&'name str>,
    /// The index of the instruction, where the failure belongs to one.
    pub instruction: Option<usize>,
}

/// A compilation unit together with the backend that is to lower it. A
/// backend takes units of its own word width only.
#[derive(Clone, Debug)]
pub enum Backend<'name> {
    Aarch64(CompilationUnit<'name, USize64>),
    Armv7(CompilationUnit<'name, USize32>),
    X86_64(CompilationUnit<'name, USize64>),
}

/// The failure of a backend that does not exist yet.
pub open spec fn unsupported_backend(name: &'static str) -> LoweringError<'static> {
    LoweringError {
        kind: LoweringErrorKind::UnimplementedFeature(name),
        function: None,
        name: None,
        instruction: None,
    }
}

/// Hands the unit to its backend and returns what the backend answers. For
/// ARMv7 there is no backend: that fails as unimplemented.
pub fn do_codegen<'name>(backend: Backend<'name>) -> (r: Result<Vec<Vec<u8>>, LoweringError<'name>>)
    ensures
        match backend {
            Backend::Aarch64(unit) => r == Err::<Vec<Vec<u8>>, LoweringError<'name>>(
                aarch64::unimplemented(),
            ),
            Backend::Armv7(unit) => r == Err::<Vec<Vec<u8>>, LoweringError<'name>>(
                unsupported_backend("armv7"),
            ),
            Backend::X86_64(unit) => x86_64::unit_lowers_to(unit, r),
        },
{
    match backend {
        Backend::Aarch64(unit) => aarch64::do_codegen(unit),
        Backend::Armv7(_) => Err(
            LoweringError {
                kind: LoweringErrorKind::UnimplementedFeature("armv7"),
                function: None,
                name: None,
                instruction: None,
            },
        ),
        Backend::X86_64(unit) => x86_64::do_codegen(unit),
    }
}

} // verus!
