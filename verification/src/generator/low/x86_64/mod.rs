//! Code generation for x86-64.
//!
//! A function is lowered in two passes. The first walks the instructions to
//! find the virtual registers in use and the instructions that conditional
//! jumps land on. The virtual registers are then given physical registers
//! in the order in which they were first seen. The second pass turns each
//! instruction into a machine instruction, with a label before it where a
//! jump lands on it; the assembler encodes what the second pass asks for.
use vstd::prelude::*;

use super::assembler::{accepted, machine_code};
use super::{LoweringError, LoweringErrorKind};
use crate::generator::high::{
    CompilationUnit, Function, FunctionRef, Instruction, Register, USize64,
};

pub mod encode;
pub mod plan;
pub mod scan;

pub use self::encode::{assemble, encodable, labels_of, log_of};
pub use self::plan::{
    failure, plan, plan_function, AsmOp, PhysicalRegister, VOLATILE_PHYSICAL_REGISTER_COUNT,
};
pub use self::scan::{first_stray_jump, used_registers};

use self::plan::{
    lemma_lowered_each, lemma_lowered_failure_stays, lemma_plan_by_instruction, lowered,
};

verus! {

/// What lowering the function `f` comes to.
///
/// A function that cannot be lowered has its one failure. One that can is
/// handed to the assembler. Where its machine instructions are encodable as
/// code at address 0, the result is the bytes that the assembler returns
/// for them; where they are not, the function fails for that reason.
pub open spec fn lowering<'name>(f: Function<'name, USize64>) -> Result<
    Seq<u8>,
    LoweringError<'name>,
> {
    match plan(f) {
        Err(e) => Err(e),
        Ok(ops) => if encodable(ops, 0) {
            Ok(machine_code(log_of(ops), 0))
        } else {
            Err(failure(f, LoweringErrorKind::Assembler, None))
        },
    }
}

/// Whether `r` is what lowering the function `f` comes to.
pub open spec fn lowers_to<'name>(
    f: Function<'name, USize64>,
    r: Result<Vec<u8>, LoweringError<'name>>,
) -> bool {
    match lowering(f) {
        Ok(bytes) => r matches Ok(code) && code@ == bytes,
        Err(e) => r == Err::<Vec<u8>, LoweringError<'name>>(e),
    }
}

/// What lowering a function answers once the assembler was asked for the
/// code of its machine instructions: that code, or the failure of the
/// function where the assembler has refused.
pub fn code_or_failure<'name>(func: &Function<'name, USize64>, assembled: Option<Vec<u8>>) -> (r:
    Result<Vec<u8>, LoweringError<'name>>)
    ensures
        r == match assembled {
            Some(bytes) => Ok::<Vec<u8>, LoweringError<'name>>(bytes),
            None => Err::<Vec<u8>, LoweringError<'name>>(
                failure(*func, LoweringErrorKind::Assembler, None),
            ),
        },
{
    match assembled {
        Some(bytes) => Ok(bytes),
        None => Err(
            LoweringError {
                kind: LoweringErrorKind::Assembler,
                function: None,
                name: Some(func.name),
                instruction: None,
            },
        ),
    }
}

fn lower<'name>(func: &Function<'name, USize64>) -> (r: Result<Vec<u8>, LoweringError<'name>>)
    ensures
        lowers_to(*func, r),
        r matches Err(e) ==> e.function.is_none(),
{
    let ops = plan_function(func)?;
    code_or_failure(func, assemble(&ops, 0))
}

/// Lowers one function to the bytes of its machine code. On failure nothing
/// of the code is returned; the failure names the function and, where there
/// is one, the instruction. A function that has its machine instructions is
/// lowered to code exactly where these are encodable.
pub fn gen_function<'name>(func: Function<'name, USize64>) -> (r: Result<
    Vec<u8>,
    LoweringError<'name>,
>)
    ensures
        lowers_to(func, r),
        plan(func) matches Ok(ops) ==> (r.is_ok() <==> encodable(ops, 0)),
        r matches Err(e) ==> e.function.is_none(),
{
    lower(&func)
}

/// The failure `e` as the function itself reports it, without its place in
/// the unit.
pub open spec fn within<'name>(e: LoweringError<'name>) -> LoweringError<'name> {
    LoweringError { kind: e.kind, function: None, name: e.name, instruction: e.instruction }
}

/// The failure `e` of a function, with the function's place in its unit.
pub open spec fn placed<'name>(e: LoweringError<'name>, at: usize) -> LoweringError<'name> {
    LoweringError {
        kind: e.kind,
        function: Some(FunctionRef(at)),
        name: e.name,
        instruction: e.instruction,
    }
}

/// What lowering the first `n` functions comes to: the code of each in
/// order, or the failure of the first of them that fails, with its place.
pub open spec fn lowering_upto<'name>(fs: Seq<Function<'name, USize64>>, n: nat) -> Result<
    Seq<Seq<u8>>,
    LoweringError<'name>,
>
    decreases n,
{
    if n == 0 {
        Ok(Seq::empty())
    } else {
        match lowering_upto(fs, (n - 1) as nat) {
            Err(e) => Err(e),
            Ok(code) => match lowering(fs[n - 1]) {
                Ok(bytes) => Ok(code.push(bytes)),
                Err(e) => Err(placed(e, (n - 1) as usize)),
            },
        }
    }
}

/// What lowering the unit comes to.
pub open spec fn unit_lowering<'name>(unit: CompilationUnit<'name, USize64>) -> Result<
    Seq<Seq<u8>>,
    LoweringError<'name>,
> {
    lowering_upto(unit.functions(), unit.functions().len())
}

/// The bytes of each buffer.
pub open spec fn buffers(code: Seq<Vec<u8>>) -> Seq<Seq<u8>> {
    code.map_values(|bytes: Vec<u8>| bytes@)
}

/// Whether `r` is what lowering the unit comes to.
pub open spec fn unit_lowers_to<'name>(
    unit: CompilationUnit<'name, USize64>,
    r: Result<Vec<Vec<u8>>, LoweringError<'name>>,
) -> bool {
    match unit_lowering(unit) {
        Ok(code) => r matches Ok(v) && buffers(v@) == code,
        Err(e) => r == Err::<Vec<Vec<u8>>, LoweringError<'name>>(e),
    }
}

/// A failure among the first `n` functions is the failure of every longer
/// run of functions.
pub proof fn lemma_unit_failure_stays<'name>(
    fs: Seq<Function<'name, USize64>>,
    n: nat,
    m: nat,
)
    requires
        n <= m,
        lowering_upto(fs, n).is_err(),
    ensures
        lowering_upto(fs, m) == lowering_upto(fs, n),
    decreases m,
{
    if n < m {
        lemma_unit_failure_stays(fs, n, (m - 1) as nat);
    }
}

/// Lowering the first `n` functions gives the code of each of them, in
/// order. Where it fails, the failure is that of the first function that
/// cannot be lowered, with its place; the functions before it can.
pub proof fn lemma_lowering_upto<'name>(fs: Seq<Function<'name, USize64>>, n: nat)
    requires
        n <= fs.len() <= usize::MAX,
    ensures
        match lowering_upto(fs, n) {
            Ok(code) => {
                &&& code.len() == n
                &&& forall|i: int|
                    0 <= i < n ==> lowering(fs[i]) == Ok::<Seq<u8>, LoweringError<'name>>(
                        #[trigger] code[i],
                    )
            },
            Err(e) => {
                &&& e.function matches Some(at)
                &&& at.0 < n
                &&& lowering(fs[at.0 as int]) == Err::<Seq<u8>, LoweringError<'name>>(within(e))
                &&& forall|k: int| 0 <= k < at.0 ==> (#[trigger] lowering(fs[k])).is_ok()
            },
        },
    decreases n,
{
    if n > 0 {
        lemma_lowering_upto(fs, (n - 1) as nat);
        lemma_failure_has_no_place(fs[n - 1]);
        match lowering_upto(fs, (n - 1) as nat) {
            Ok(before) => match lowering(fs[n - 1]) {
                Ok(bytes) => {
                    let code = before.push(bytes);
                    assert forall|i: int| 0 <= i < n implies lowering(fs[i]) == Ok::<
                        Seq<u8>,
                        LoweringError<'name>,
                    >(#[trigger] code[i]) by {
                        if i < n - 1 {
                            assert(code[i] == before[i]);
                        }
                    }
                },
                Err(e) => {
                    let placed = placed(e, (n - 1) as usize);
                    assert(within(placed) == e);
                    assert forall|k: int| 0 <= k < n - 1 implies (#[trigger] lowering(
                        fs[k],
                    )).is_ok() by {
                        assert(lowering(fs[k]) == Ok::<Seq<u8>, LoweringError<'name>>(before[k]));
                    }
                },
            },
            Err(_) => {},
        }
    }
}

/// The failure of a function does not say where in a unit the function
/// stands.
pub proof fn lemma_failure_has_no_place<'name>(f: Function<'name, USize64>)
    ensures
        lowering(f) matches Err(e) ==> e.function.is_none() && within(e) == e,
{
    if plan(f).is_err() && first_stray_jump(f, f.instructions@.len()).is_none()
        && used_registers(f).len() <= VOLATILE_PHYSICAL_REGISTER_COUNT {
        lemma_lowered_failure_has_no_place(f, used_registers(f), f.instructions@.len());
    }
}

proof fn lemma_lowered_failure_has_no_place<'name>(
    f: Function<'name, USize64>,
    regs: Seq<Register>,
    n: nat,
)
    ensures
        lowered(f, regs, n) matches Err(e) ==> e.function.is_none(),
    decreases n,
{
    if n > 0 {
        lemma_lowered_failure_has_no_place(f, regs, (n - 1) as nat);
    }
}

/// Lowers the functions of a unit one by one, in order, each to a buffer of
/// its own. The first function that fails ends the run: its failure is
/// returned with the function's place in the unit, and no code at all.
pub fn do_codegen<'name>(unit: CompilationUnit<'name, USize64>) -> (r: Result<
    Vec<Vec<u8>>,
    LoweringError<'name>,
>)
    ensures
        unit_lowers_to(unit, r),
{
    let len: usize = unit.len();
    let mut code: Vec<Vec<u8>> = Vec::new();
    let mut i: usize = 0;
    assert(buffers(code@) =~= Seq::<Seq<u8>>::empty());
    while i < len
        invariant
            i <= len,
            len == unit.functions().len(),
            lowering_upto(unit.functions(), i as nat) == Ok::<Seq<Seq<u8>>, LoweringError<'name>>(
                buffers(code@),
            ),
        decreases len - i,
    {
        let ghost before = buffers(code@);
        match lower(unit.get_function(FunctionRef(i))) {
            Ok(bytes) => {
                code.push(bytes);
                assert(buffers(code@) =~= before.push(bytes@));
            },
            Err(e) => {
                proof {
                    lemma_unit_failure_stays(unit.functions(), (i + 1) as nat, len as nat);
                }
                return Err(
                    LoweringError {
                        kind: e.kind,
                        function: Some(FunctionRef(i)),
                        name: e.name,
                        instruction: e.instruction,
                    },
                );
            },
        }
        i += 1;
    }
    Ok(code)
}

/// The machine instructions of a function hold no label, so that the
/// assembler takes them one after the other if only it has labels enough
/// for the data of their multiplications. They are encodable where that is
/// so and the assembler accepts them as a whole.
pub proof fn lemma_plan_encodable<'name>(f: Function<'name, USize64>, ops: Seq<AsmOp>, ip: u64)
    requires
        plan(f) == Ok::<Seq<AsmOp>, LoweringError<'name>>(ops),
    ensures
        encodable(ops, ip) <==> labels_of(ops) <= u64::MAX && accepted(log_of(ops), ip),
{
    lemma_plan_by_instruction(f, ops);
}

/// Lowering is deterministic: what lowering a function answers is fixed by
/// the function. Two lowerings of one function both fail, and then with the
/// same failure, or both succeed, and then with the same bytes.
pub proof fn lemma_lowering_deterministic<'name>(
    f: Function<'name, USize64>,
    first: Result<Vec<u8>, LoweringError<'name>>,
    second: Result<Vec<u8>, LoweringError<'name>>,
)
    requires
        lowers_to(f, first),
        lowers_to(f, second),
    ensures
        first.is_ok() == second.is_ok(),
        first.is_ok() ==> first.unwrap()@ == second.unwrap()@,
        first.is_err() ==> first == second,
{
}

/// A function is lowered in a unit as it is lowered alone: where the unit
/// is lowered, the code of each function is what lowering that function
/// comes to, wherever in the unit it stands.
pub proof fn lemma_unit_lowering<'name>(unit: CompilationUnit<'name, USize64>)
    requires
        unit.functions().len() <= usize::MAX,
    ensures
        match unit_lowering(unit) {
            Ok(code) => {
                &&& code.len() == unit.functions().len()
                &&& forall|i: int|
                    0 <= i < code.len() ==> lowering(unit.functions()[i]) == Ok::<
                        Seq<u8>,
                        LoweringError<'name>,
                    >(#[trigger] code[i])
            },
            Err(e) => {
                &&& e.function matches Some(at)
                &&& at.0 < unit.functions().len()
                &&& lowering(unit.functions()[at.0 as int]) == Err::<
                    Seq<u8>,
                    LoweringError<'name>,
                >(within(e))
                &&& forall|k: int|
                    0 <= k < at.0 ==> (#[trigger] lowering(unit.functions()[k])).is_ok()
            },
        },
{
    lemma_lowering_upto(unit.functions(), unit.functions().len());
}

/// A function that names more virtual registers than there are physical
/// registers, and whose conditional jumps all stay inside it, fails for
/// that reason, with the number of registers that it needs.
pub proof fn lemma_budget_exceeded<'name>(
    f: Function<'name, USize64>,
    r: Result<Vec<u8>, LoweringError<'name>>,
)
    requires
        lowers_to(f, r),
        first_stray_jump(f, f.instructions@.len()).is_none(),
        used_registers(f).len() > VOLATILE_PHYSICAL_REGISTER_COUNT,
    ensures
        r == Err::<Vec<u8>, LoweringError<'name>>(
            failure(
                f,
                LoweringErrorKind::RegisterBudgetExceeded {
                    needed: used_registers(f).len() as usize,
                    available: VOLATILE_PHYSICAL_REGISTER_COUNT,
                },
                None,
            ),
        ),
{
}

/// A function that holds a `Divide` is never lowered to code.
pub proof fn lemma_divide_never_lowers<'name>(
    f: Function<'name, USize64>,
    r: Result<Vec<u8>, LoweringError<'name>>,
    i: int,
)
    requires
        lowers_to(f, r),
        0 <= i < f.instructions@.len(),
        f.instructions@[i] is Divide,
    ensures
        r.is_err(),
{
    if plan(f).is_ok() {
        lemma_lowered_each(f, used_registers(f), f.instructions@.len(), i);
    }
}

/// A `Divide` whose destination is one of its operands fails as
/// unimplemented, where lowering gets as far as that instruction: the
/// conditional jumps stay inside the function, the registers are within the
/// budget, and the instructions before it are lowered.
pub proof fn lemma_divide_unimplemented<'name>(
    f: Function<'name, USize64>,
    r: Result<Vec<u8>, LoweringError<'name>>,
    i: int,
)
    requires
        lowers_to(f, r),
        0 <= i < f.instructions@.len(),
        f.instructions@[i] matches Instruction::Divide(p) && p.two_args().is_some(),
        first_stray_jump(f, f.instructions@.len()).is_none(),
        used_registers(f).len() <= VOLATILE_PHYSICAL_REGISTER_COUNT,
        lowered(f, used_registers(f), i as nat).is_ok(),
    ensures
        r == Err::<Vec<u8>, LoweringError<'name>>(
            failure(f, LoweringErrorKind::UnimplementedFeature("divide"), Some(i as usize)),
        ),
{
    assert(f.instructions@.len() == f.instructions.len());
    lemma_lowered_failure_stays(f, used_registers(f), (i + 1) as nat, f.instructions@.len());
}

} // verus!
