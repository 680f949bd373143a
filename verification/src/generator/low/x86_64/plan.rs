//! The second pass: the machine instructions of a function.
//!
//! Each instruction is lowered to one machine instruction on the physical
//! registers that its virtual registers were given. Nothing is encoded here:
//! the result is the list of machine instructions in order.
use vstd::prelude::*;

use super::scan::{
    first_stray_jump, instruction_registers, is_jump_target, jumps_to, lemma_registers_seen,
    lvalue_registers, rvalue_registers, scan, used_registers,
};
use crate::generator::high::{
    BinaryOperator, Function, Instruction, IntegerSize, LValue, PrimitiveValue, RValue, Register,
    USize64, USizeBase,
};
use crate::generator::low::{LoweringError, LoweringErrorKind};

verus! {

/// How many physical registers the engine has to give: `rax`, `r10` and
/// `r11`, which a callee need not preserve.
pub const VOLATILE_PHYSICAL_REGISTER_COUNT: usize = 3;

/// A physical register that the engine assigns.
#[derive(Copy, Clone, Debug, PartialEq, Eq, Structural)]
pub enum PhysicalRegister {
    Rax,
    R10,
    R11,
}

impl PhysicalRegister {
    /// The register that the virtual register seen as number `n` gets,
    /// counting from 0.
    pub open spec fn nth(n: int) -> PhysicalRegister {
        if n == 0 {
            PhysicalRegister::Rax
        } else if n == 1 {
            PhysicalRegister::R10
        } else {
            PhysicalRegister::R11
        }
    }

    /// The number that the hardware knows the register by.
    pub open spec fn number(self) -> int {
        match self {
            PhysicalRegister::Rax => 0,
            PhysicalRegister::R10 => 10,
            PhysicalRegister::R11 => 11,
        }
    }

    fn from_index(n: usize) -> (r: PhysicalRegister)
        requires
            n < VOLATILE_PHYSICAL_REGISTER_COUNT,
        ensures
            r == PhysicalRegister::nth(n as int),
    {
        if n == 0 {
            PhysicalRegister::Rax
        } else if n == 1 {
            PhysicalRegister::R10
        } else {
            PhysicalRegister::R11
        }
    }
}

/// A machine instruction that the second pass asks for, or a mark between
/// two of them.
#[derive(Copy, Clone, Debug, PartialEq, Eq, Structural)]
#[allow(inconsistent_fields)]
pub enum AsmOp {
    /// A conditional jump lands here: what follows is the code of the
    /// instruction with this index.
    Label { instruction: usize },
    /// `mov dst, src` on 64 bit registers.
    Mov { dst: PhysicalRegister, src: PhysicalRegister },
    /// `mov dst, imm` with a 64 bit immediate.
    MovImm { dst: PhysicalRegister, imm: i64 },
    /// `add dst, src` on 64 bit registers.
    Add { dst: PhysicalRegister, src: PhysicalRegister },
    /// `add dst, imm` with a 32 bit immediate, which the processor extends
    /// by its sign.
    AddImm { dst: PhysicalRegister, imm: i32 },
    /// `sub dst, src` on 64 bit registers.
    Sub { dst: PhysicalRegister, src: PhysicalRegister },
    /// `sub dst, imm` with a 32 bit immediate.
    SubImm { dst: PhysicalRegister, imm: i32 },
    /// `imul dst, src` on 64 bit registers.
    Mul { dst: PhysicalRegister, src: PhysicalRegister },
    /// A multiplication of the low 32 bits of `dst` by a constant that is
    /// stored in the code: a jump over four bytes that hold `data`, least
    /// significant byte first, then `imul` of the 32 bit register with those
    /// four bytes.
    MulData32 { dst: PhysicalRegister, data: u32 },
}

/// The physical register of a virtual register: the registers are given out
/// in the order in which the virtual registers were first seen.
pub open spec fn assigned(regs: Seq<Register>, r: Register) -> PhysicalRegister {
    PhysicalRegister::nth(regs.index_of(r))
}

/// What a `Move` is lowered to. Only a register can be written, and only a
/// register or a literal be read; a literal goes into the instruction as a
/// 64 bit immediate.
pub open spec fn move_op<USize: USizeBase>(
    regs: Seq<Register>,
    src: RValue<USize>,
    dst: LValue<USize>,
) -> Result<AsmOp, LoweringErrorKind> {
    match (dst, src) {
        (LValue::Reg(d), RValue::Writeable(LValue::Reg(s))) => Ok(
            AsmOp::Mov { dst: assigned(regs, d), src: assigned(regs, s) },
        ),
        (LValue::Reg(d), RValue::Literal(l)) => Ok(
            AsmOp::MovImm { dst: assigned(regs, d), imm: l as i64 },
        ),
        _ => Err(LoweringErrorKind::UnsupportedOperandShape),
    }
}

/// What an `Add` is lowered to. The destination has to be one of the two
/// operands and a register; the other operand is a register or a literal, of
/// which the low 32 bits go into the instruction.
pub open spec fn add_op<USize: USizeBase>(regs: Seq<Register>, p: BinaryOperator<USize>) -> Result<
    AsmOp,
    LoweringErrorKind,
> {
    match p.two_args() {
        Some((LValue::Reg(a), RValue::Writeable(LValue::Reg(b)))) => Ok(
            AsmOp::Add { dst: assigned(regs, a), src: assigned(regs, b) },
        ),
        Some((LValue::Reg(a), RValue::Literal(l))) => Ok(
            AsmOp::AddImm { dst: assigned(regs, a), imm: l as i32 },
        ),
        _ => Err(LoweringErrorKind::UnsupportedOperandShape),
    }
}

/// What a `Subtract` is lowered to, under the conditions of `add_op`.
pub open spec fn subtract_op<USize: USizeBase>(
    regs: Seq<Register>,
    p: BinaryOperator<USize>,
) -> Result<AsmOp, LoweringErrorKind> {
    match p.two_args() {
        Some((LValue::Reg(a), RValue::Writeable(LValue::Reg(b)))) => Ok(
            AsmOp::Sub { dst: assigned(regs, a), src: assigned(regs, b) },
        ),
        Some((LValue::Reg(a), RValue::Literal(l))) => Ok(
            AsmOp::SubImm { dst: assigned(regs, a), imm: l as i32 },
        ),
        _ => Err(LoweringErrorKind::UnsupportedOperandShape),
    }
}

/// What a `Multiply` is lowered to. Two registers are multiplied as 64 bit
/// integers. There is no multiplication by an immediate here: a literal is
/// stored in the code and read from there, which is written for 32 bit
/// integers alone.
pub open spec fn multiply_op<USize: USizeBase>(
    regs: Seq<Register>,
    p: BinaryOperator<USize>,
) -> Result<AsmOp, LoweringErrorKind> {
    match p.two_args() {
        Some((LValue::Reg(a), RValue::Writeable(LValue::Reg(b)))) => match p.value {
            PrimitiveValue::Signed(_) | PrimitiveValue::Unsigned(_) => Ok(
                AsmOp::Mul { dst: assigned(regs, a), src: assigned(regs, b) },
            ),
            PrimitiveValue::Floating(_) => Err(
                LoweringErrorKind::UnimplementedFeature("floating-point"),
            ),
            PrimitiveValue::Pointer => Err(LoweringErrorKind::UnsupportedWidth),
        },
        Some((LValue::Reg(a), RValue::Literal(l))) => match p.value {
            PrimitiveValue::Signed(IntegerSize::B32) | PrimitiveValue::Unsigned(
                IntegerSize::B32,
            ) => Ok(AsmOp::MulData32 { dst: assigned(regs, a), data: l as u32 }),
            PrimitiveValue::Floating(_) => Err(
                LoweringErrorKind::UnimplementedFeature("floating-point"),
            ),
            _ => Err(LoweringErrorKind::UnsupportedWidth),
        },
        _ => Err(LoweringErrorKind::UnsupportedOperandShape),
    }
}

/// What a `Divide` is lowered to: nothing yet. The shape of the operands is
/// looked at first, as for the other arithmetic instructions.
pub open spec fn divide_op<USize: USizeBase>(p: BinaryOperator<USize>) -> Result<
    AsmOp,
    LoweringErrorKind,
> {
    match p.two_args() {
        Some(_) => Err(LoweringErrorKind::UnimplementedFeature("divide")),
        None => Err(LoweringErrorKind::UnsupportedOperandShape),
    }
}

/// The machine instruction of one instruction, with `regs` as the virtual
/// registers of the function in first-seen order.
pub open spec fn instruction_op<USize: USizeBase>(
    regs: Seq<Register>,
    ins: Instruction<USize>,
) -> Result<AsmOp, LoweringErrorKind> {
    match ins {
        Instruction::Move { src, dst, value } => move_op(regs, src, dst),
        Instruction::LoadParameter { n, dst } => Err(
            LoweringErrorKind::UnimplementedFeature("load-parameter"),
        ),
        Instruction::Add(p) => add_op(regs, p),
        Instruction::Subtract(p) => subtract_op(regs, p),
        Instruction::Multiply(p) => multiply_op(regs, p),
        Instruction::Divide(p) => divide_op(p),
        Instruction::Call { function, return_value } => Err(
            LoweringErrorKind::UnimplementedFeature("call"),
        ),
        Instruction::Return { value } => Err(LoweringErrorKind::UnimplementedFeature("return")),
        Instruction::Jump { offset } => Err(LoweringErrorKind::UnimplementedFeature("jump")),
        Instruction::ConditionalJump { offset, value, condition } => Err(
            LoweringErrorKind::UnimplementedFeature("conditional-jump"),
        ),
    }
}

/// The failure of the function `f` for the reason `kind`.
pub open spec fn failure<'name, USize: USizeBase>(
    f: Function<'name, USize>,
    kind: LoweringErrorKind,
    instruction: Option<usize>,
) -> LoweringError<'name> {
    LoweringError { kind, function: None, name: Some(f.name), instruction }
}

/// The machine instructions of the first `n` instructions, or the failure of
/// the first among them that cannot be lowered. An instruction that a
/// conditional jump lands on has a label before its machine instruction.
pub open spec fn lowered<'name, USize: USizeBase>(
    f: Function<'name, USize>,
    regs: Seq<Register>,
    n: nat,
) -> Result<Seq<AsmOp>, LoweringError<'name>>
    decreases n,
{
    if n == 0 {
        Ok(seq![])
    } else {
        match lowered(f, regs, (n - 1) as nat) {
            Err(e) => Err(e),
            Ok(ops) => {
                let marked = if is_jump_target(f, n - 1) {
                    ops.push(AsmOp::Label { instruction: (n - 1) as usize })
                } else {
                    ops
                };
                match instruction_op(regs, f.instructions@[n - 1]) {
                    Ok(op) => Ok(marked.push(op)),
                    Err(kind) => Err(failure(f, kind, Some((n - 1) as usize))),
                }
            },
        }
    }
}

/// A failure among the first `n` instructions is the failure of every longer
/// run of instructions.
pub proof fn lemma_lowered_failure_stays<USize: USizeBase>(
    f: Function<'_, USize>,
    regs: Seq<Register>,
    n: nat,
    m: nat,
)
    requires
        n <= m,
        lowered(f, regs, n).is_err(),
    ensures
        lowered(f, regs, m) == lowered(f, regs, n),
    decreases m,
{
    if n < m {
        lemma_lowered_failure_stays(f, regs, n, (m - 1) as nat);
    }
}

/// What lowering the function comes to, before anything is encoded: the
/// machine instructions in order, or the failure.
///
/// The jumps are looked at first, then the number of registers, then the
/// instructions one by one; the first failure on the way is the answer.
pub open spec fn plan<'name, USize: USizeBase>(f: Function<'name, USize>) -> Result<
    Seq<AsmOp>,
    LoweringError<'name>,
> {
    match first_stray_jump(f, f.instructions@.len()) {
        Some(j) => Err(failure(f, LoweringErrorKind::OffsetOutOfRange, Some(j))),
        None => {
            let regs = used_registers(f);
            if regs.len() > VOLATILE_PHYSICAL_REGISTER_COUNT {
                Err(
                    failure(
                        f,
                        LoweringErrorKind::RegisterBudgetExceeded {
                            needed: regs.len() as usize,
                            available: VOLATILE_PHYSICAL_REGISTER_COUNT,
                        },
                        None,
                    ),
                )
            } else {
                lowered(f, regs, f.instructions@.len())
            }
        },
    }
}

/// The physical register of a virtual register of the function.
fn assigned_register(regs: &Vec<Register>, r: Register) -> (p: PhysicalRegister)
    requires
        regs@.len() <= VOLATILE_PHYSICAL_REGISTER_COUNT,
        regs@.no_duplicates(),
        regs@.contains(r),
    ensures
        p == assigned(regs@, r),
{
    let ghost at = regs@.index_of(r);
    let mut i: usize = 0;
    while i < regs.len()
        invariant
            i <= regs.len(),
            regs@.len() <= VOLATILE_PHYSICAL_REGISTER_COUNT,
            regs@.no_duplicates(),
            0 <= at < regs@.len(),
            regs@[at] == r,
            at == regs@.index_of(r),
            forall|k: int| 0 <= k < i ==> regs@[k] != r,
        decreases regs.len() - i,
    {
        if regs[i] == r {
            assert(at == i);
            return PhysicalRegister::from_index(i);
        }
        i += 1;
    }
    // the register is among those of the function
    vstd::pervasive::unreached()
}

/// The registers of an arithmetic instruction hold each register that is
/// one of its operands.
proof fn lemma_operator_registers<USize: USizeBase>(p: BinaryOperator<USize>)
    ensures
        ({
            let all = rvalue_registers(p.a) + rvalue_registers(p.b) + lvalue_registers(p.dst);
            &&& p.a matches RValue::Writeable(LValue::Reg(r)) ==> all.contains(r)
            &&& p.b matches RValue::Writeable(LValue::Reg(r)) ==> all.contains(r)
            &&& p.dst matches LValue::Reg(r) ==> all.contains(r)
        }),
{
    let first = rvalue_registers(p.a);
    let second = rvalue_registers(p.b);
    let all = first + second + lvalue_registers(p.dst);
    if let RValue::Writeable(LValue::Reg(r)) = p.a {
        assert(all[0] == r);
    }
    if let RValue::Writeable(LValue::Reg(r)) = p.b {
        assert(all[first.len() as int] == r);
    }
    if let LValue::Reg(r) = p.dst {
        assert(all[(first.len() + second.len()) as int] == r);
    }
}

fn lower_move(regs: &Vec<Register>, src: &RValue<USize64>, dst: &LValue<USize64>) -> (r: Result<
    AsmOp,
    LoweringErrorKind,
>)
    requires
        regs@.len() <= VOLATILE_PHYSICAL_REGISTER_COUNT,
        regs@.no_duplicates(),
        forall|r: Register|
            (rvalue_registers(*src) + lvalue_registers(*dst)).contains(r) ==> regs@.contains(r),
    ensures
        r == move_op(regs@, *src, *dst),
{
    let ghost all = rvalue_registers(*src) + lvalue_registers(*dst);
    match (dst, src) {
        (LValue::Reg(d), RValue::Writeable(LValue::Reg(s))) => {
            assert(all[0] == *s && all[1] == *d);
            Ok(AsmOp::Mov { dst: assigned_register(regs, *d), src: assigned_register(regs, *s) })
        },
        (LValue::Reg(d), RValue::Literal(l)) => {
            assert(all[0] == *d);
            let imm: i64 = #[verifier::truncate]
            (*l as i64);
            Ok(AsmOp::MovImm { dst: assigned_register(regs, *d), imm })
        },
        _ => Err(LoweringErrorKind::UnsupportedOperandShape),
    }
}

fn lower_add(regs: &Vec<Register>, p: &BinaryOperator<USize64>) -> (r: Result<
    AsmOp,
    LoweringErrorKind,
>)
    requires
        regs@.len() <= VOLATILE_PHYSICAL_REGISTER_COUNT,
        regs@.no_duplicates(),
        forall|r: Register|
            (rvalue_registers(p.a) + rvalue_registers(p.b) + lvalue_registers(p.dst)).contains(r)
                ==> regs@.contains(r),
    ensures
        r == add_op(regs@, *p),
{
    proof {
        lemma_operator_registers(*p);
    }
    match p.to_two_args() {
        Some((LValue::Reg(a), RValue::Writeable(LValue::Reg(b)))) => Ok(
            AsmOp::Add { dst: assigned_register(regs, a), src: assigned_register(regs, b) },
        ),
        Some((LValue::Reg(a), RValue::Literal(l))) => {
            let imm: i32 = #[verifier::truncate]
            (l as i32);
            Ok(AsmOp::AddImm { dst: assigned_register(regs, a), imm })
        },
        _ => Err(LoweringErrorKind::UnsupportedOperandShape),
    }
}

fn lower_subtract(regs: &Vec<Register>, p: &BinaryOperator<USize64>) -> (r: Result<
    AsmOp,
    LoweringErrorKind,
>)
    requires
        regs@.len() <= VOLATILE_PHYSICAL_REGISTER_COUNT,
        regs@.no_duplicates(),
        forall|r: Register|
            (rvalue_registers(p.a) + rvalue_registers(p.b) + lvalue_registers(p.dst)).contains(r)
                ==> regs@.contains(r),
    ensures
        r == subtract_op(regs@, *p),
{
    proof {
        lemma_operator_registers(*p);
    }
    match p.to_two_args() {
        Some((LValue::Reg(a), RValue::Writeable(LValue::Reg(b)))) => Ok(
            AsmOp::Sub { dst: assigned_register(regs, a), src: assigned_register(regs, b) },
        ),
        Some((LValue::Reg(a), RValue::Literal(l))) => {
            let imm: i32 = #[verifier::truncate]
            (l as i32);
            Ok(AsmOp::SubImm { dst: assigned_register(regs, a), imm })
        },
        _ => Err(LoweringErrorKind::UnsupportedOperandShape),
    }
}

fn lower_multiply(regs: &Vec<Register>, p: &BinaryOperator<USize64>) -> (r: Result<
    AsmOp,
    LoweringErrorKind,
>)
    requires
        regs@.len() <= VOLATILE_PHYSICAL_REGISTER_COUNT,
        regs@.no_duplicates(),
        forall|r: Register|
            (rvalue_registers(p.a) + rvalue_registers(p.b) + lvalue_registers(p.dst)).contains(r)
                ==> regs@.contains(r),
    ensures
        r == multiply_op(regs@, *p),
{
    proof {
        lemma_operator_registers(*p);
    }
    match p.to_two_args() {
        Some((LValue::Reg(a), RValue::Writeable(LValue::Reg(b)))) => match p.value {
            PrimitiveValue::Signed(_) | PrimitiveValue::Unsigned(_) => Ok(
                AsmOp::Mul { dst: assigned_register(regs, a), src: assigned_register(regs, b) },
            ),
            PrimitiveValue::Floating(_) => Err(
                LoweringErrorKind::UnimplementedFeature("floating-point"),
            ),
            PrimitiveValue::Pointer => Err(LoweringErrorKind::UnsupportedWidth),
        },
        Some((LValue::Reg(a), RValue::Literal(l))) => match p.value {
            PrimitiveValue::Signed(IntegerSize::B32) | PrimitiveValue::Unsigned(
                IntegerSize::B32,
            ) => {
                let data: u32 = #[verifier::truncate]
                (l as u32);
                Ok(AsmOp::MulData32 { dst: assigned_register(regs, a), data })
            },
            PrimitiveValue::Floating(_) => Err(
                LoweringErrorKind::UnimplementedFeature("floating-point"),
            ),
            _ => Err(LoweringErrorKind::UnsupportedWidth),
        },
        _ => Err(LoweringErrorKind::UnsupportedOperandShape),
    }
}

fn lower_divide(p: &BinaryOperator<USize64>) -> (r: Result<AsmOp, LoweringErrorKind>)
    ensures
        r == divide_op(*p),
{
    match p.to_two_args() {
        Some(_) => Err(LoweringErrorKind::UnimplementedFeature("divide")),
        None => Err(LoweringErrorKind::UnsupportedOperandShape),
    }
}

/// The second pass on one instruction.
fn lower_instruction(regs: &Vec<Register>, ins: &Instruction<USize64>) -> (r: Result<
    AsmOp,
    LoweringErrorKind,
>)
    requires
        regs@.len() <= VOLATILE_PHYSICAL_REGISTER_COUNT,
        regs@.no_duplicates(),
        forall|r: Register| instruction_registers(*ins).contains(r) ==> regs@.contains(r),
    ensures
        r == instruction_op(regs@, *ins),
{
    match ins {
        Instruction::Move { src, dst, value: _ } => lower_move(regs, src, dst),
        Instruction::LoadParameter { n: _, dst: _ } => Err(
            LoweringErrorKind::UnimplementedFeature("load-parameter"),
        ),
        Instruction::Add(p) => lower_add(regs, p),
        Instruction::Subtract(p) => lower_subtract(regs, p),
        Instruction::Multiply(p) => lower_multiply(regs, p),
        Instruction::Divide(p) => lower_divide(p),
        Instruction::Call { function: _, return_value: _ } => Err(
            LoweringErrorKind::UnimplementedFeature("call"),
        ),
        Instruction::Return { value: _ } => Err(LoweringErrorKind::UnimplementedFeature("return")),
        Instruction::Jump { offset: _ } => Err(LoweringErrorKind::UnimplementedFeature("jump")),
        Instruction::ConditionalJump { offset: _, value: _, condition: _ } => Err(
            LoweringErrorKind::UnimplementedFeature("conditional-jump"),
        ),
    }
}

/// Lowers a function as far as the machine instructions, in the order in
/// which they are to be encoded. Nothing is encoded yet.
pub fn plan_function<'name>(func: &Function<'name, USize64>) -> (r: Result<
    Vec<AsmOp>,
    LoweringError<'name>,
>)
    ensures
        match plan(*func) {
            Ok(ops) => r matches Ok(v) && v@ == ops,
            Err(e) => r == Err::<Vec<AsmOp>, LoweringError<'name>>(e),
        },
        r matches Err(e) ==> e.function.is_none(),
{
    let name = func.name;
    let (regs, marks) = match scan(func) {
        Ok(found) => found,
        Err(j) => {
            return Err(
                LoweringError {
                    kind: LoweringErrorKind::OffsetOutOfRange,
                    function: None,
                    name: Some(name),
                    instruction: Some(j),
                },
            );
        },
    };
    if regs.len() > VOLATILE_PHYSICAL_REGISTER_COUNT {
        return Err(
            LoweringError {
                kind: LoweringErrorKind::RegisterBudgetExceeded {
                    needed: regs.len(),
                    available: VOLATILE_PHYSICAL_REGISTER_COUNT,
                },
                function: None,
                name: Some(name),
                instruction: None,
            },
        );
    }
    let len: usize = func.instructions.len();
    let mut ops: Vec<AsmOp> = Vec::new();
    let mut i: usize = 0;
    proof {
        lemma_registers_seen(func.instructions@, len as nat);
    }
    while i < len
        invariant
            i <= len,
            len == func.instructions@.len(),
            name == func.name,
            first_stray_jump(*func, len as nat).is_none(),
            regs@ == used_registers(*func),
            regs@.len() <= VOLATILE_PHYSICAL_REGISTER_COUNT,
            regs@.no_duplicates(),
            forall|k: int, r: Register|
                0 <= k < len && instruction_registers(func.instructions@[k]).contains(r)
                    ==> regs@.contains(r),
            marks@.len() == len,
            forall|d: int| 0 <= d < len ==> marks@[d] == is_jump_target(*func, d),
            lowered(*func, regs@, i as nat) == Ok::<Seq<AsmOp>, LoweringError<'name>>(ops@),
        decreases len - i,
    {
        if marks[i] {
            ops.push(AsmOp::Label { instruction: i });
        }
        match lower_instruction(&regs, &func.instructions[i]) {
            Ok(op) => ops.push(op),
            Err(kind) => {
                proof {
                    lemma_lowered_failure_stays(*func, regs@, (i + 1) as nat, len as nat);
                }
                return Err(
                    LoweringError {
                        kind,
                        function: None,
                        name: Some(name),
                        instruction: Some(i),
                    },
                );
            },
        }
        i += 1;
    }
    Ok(ops)
}

/// The virtual register that was seen as number `k`, counting from 0, gets
/// the physical register of that number.
pub proof fn lemma_assigned_in_order(regs: Seq<Register>, k: int)
    requires
        regs.no_duplicates(),
        0 <= k < regs.len(),
    ensures
        assigned(regs, regs[k]) == PhysicalRegister::nth(k),
{
    assert(regs.contains(regs[k]));
}

/// Within the budget no two virtual registers share a physical register.
pub proof fn lemma_assigned_apart(regs: Seq<Register>, a: Register, b: Register)
    requires
        regs.no_duplicates(),
        regs.len() <= VOLATILE_PHYSICAL_REGISTER_COUNT,
        regs.contains(a),
        regs.contains(b),
        a != b,
    ensures
        assigned(regs, a) != assigned(regs, b),
{
}

/// Where the first `n` instructions are lowered, each of them is.
pub proof fn lemma_lowered_each<USize: USizeBase>(
    f: Function<'_, USize>,
    regs: Seq<Register>,
    n: nat,
    i: int,
)
    requires
        lowered(f, regs, n).is_ok(),
        0 <= i < n,
    ensures
        instruction_op(regs, f.instructions@[i]).is_ok(),
    decreases n,
{
    if i < n - 1 {
        lemma_lowered_each(f, regs, (n - 1) as nat, i);
    }
}

/// Where the instructions are all lowered, no conditional jump is among
/// them, and none of them is jumped to.
proof fn lemma_no_jump_lowers<'name, USize: USizeBase>(
    f: Function<'name, USize>,
    regs: Seq<Register>,
)
    requires
        lowered(f, regs, f.instructions@.len()).is_ok(),
    ensures
        forall|d: int| !is_jump_target(f, d),
{
    assert forall|d: int| !is_jump_target(f, d) by {
        if is_jump_target(f, d) {
            let j = choose|j: int| jumps_to(f, j, d);
            lemma_lowered_each(f, regs, f.instructions@.len(), j);
        }
    }
}

/// Where the instructions are all lowered, the first `n` of them are
/// lowered one by one.
proof fn lemma_lowered_by_instruction<'name, USize: USizeBase>(
    f: Function<'name, USize>,
    regs: Seq<Register>,
    n: nat,
)
    requires
        n <= f.instructions@.len(),
        lowered(f, regs, f.instructions@.len()).is_ok(),
    ensures
        lowered(f, regs, n).is_ok(),
        lowered(f, regs, n).unwrap().len() == n,
        forall|i: int|
            0 <= i < n ==> instruction_op(regs, f.instructions@[i]) == Ok::<
                AsmOp,
                LoweringErrorKind,
            >(#[trigger] lowered(f, regs, n).unwrap()[i]),
    decreases n,
{
    lemma_no_jump_lowers(f, regs);
    if lowered(f, regs, n).is_err() {
        lemma_lowered_failure_stays(f, regs, n, f.instructions@.len());
    }
    if n > 0 {
        lemma_lowered_by_instruction(f, regs, (n - 1) as nat);
    }
}

/// A function that can be lowered has one machine instruction for each of
/// its instructions, in order. None of its instructions is a jump, so that
/// there is no label among the machine instructions.
pub proof fn lemma_plan_by_instruction<'name, USize: USizeBase>(
    f: Function<'name, USize>,
    ops: Seq<AsmOp>,
)
    requires
        plan(f) == Ok::<Seq<AsmOp>, LoweringError<'name>>(ops),
    ensures
        ops.len() == f.instructions@.len(),
        forall|i: int|
            0 <= i < ops.len() ==> instruction_op(used_registers(f), f.instructions@[i]) == Ok::<
                AsmOp,
                LoweringErrorKind,
            >(#[trigger] ops[i]),
        forall|i: int| 0 <= i < ops.len() ==> !((#[trigger] ops[i]) is Label),
{
    lemma_lowered_by_instruction(f, used_registers(f), f.instructions@.len());
    assert forall|i: int| 0 <= i < ops.len() implies !((#[trigger] ops[i]) is Label) by {
        assert(instruction_op(used_registers(f), f.instructions@[i]) == Ok::<
            AsmOp,
            LoweringErrorKind,
        >(ops[i]));
    }
}

} // verus!
