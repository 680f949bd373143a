//! Code generation for aarch64 (ARMv8).
//!
//! The backend is not written yet. Its entry point stands, so that the
//! dispatch can be used and a backend be put behind it later.
use vstd::prelude::*;

use super::{LoweringError, LoweringErrorKind};
use crate::generator::high::{CompilationUnit, USize64};

verus! {

/// The failure of every call of this backend.
pub open spec fn unimplemented() -> LoweringError<'static> {
    LoweringError {
        kind: LoweringErrorKind::UnimplementedFeature("secondary-isa"),
        function: None,
        name: None,
        instruction: None,
    }
}

/// Lowers nothing: fails on every unit, as unimplemented.
pub fn do_codegen<'name>(unit: CompilationUnit<'name, USize64>) -> (r: Result<
    Vec<Vec<u8>>,
    LoweringError<'name>,
>)
    ensures
        r == Err::<Vec<Vec<u8>>, LoweringError<'name>>(unimplemented()),
{
    Err(
        LoweringError {
            kind: LoweringErrorKind::UnimplementedFeature("secondary-isa"),
            function: None,
            name: None,
            instruction: None,
        },
    )
}

} // verus!
