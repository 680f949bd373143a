//! The first pass: which virtual registers a function uses, and which of
//! its instructions conditional jumps land on.
use vstd::prelude::*;

use crate::generator::high::{
    BinaryOperator, Function, Instruction, LValue, RValue, Register, USize64, USizeBase,
};

verus! {

/// The registers that a location names.
pub open spec fn lvalue_registers<USize: USizeBase>(v: LValue<USize>) -> Seq<Register> {
    match v {
        LValue::Reg(r) => seq![r],
        LValue::DerefReg(r) => seq![r],
        LValue::DerefAddr(_) => seq![],
    }
}

/// The registers that a value names.
pub open spec fn rvalue_registers<USize: USizeBase>(v: RValue<USize>) -> Seq<Register> {
    match v {
        RValue::Writeable(l) => lvalue_registers(l),
        RValue::Literal(_) => seq![],
    }
}

/// The registers that an instruction names, operand by operand: sources
/// before the destination.
pub open spec fn instruction_registers<USize: USizeBase>(ins: Instruction<USize>) -> Seq<
    Register,
> {
    match ins {
        Instruction::Move { src, dst, value } => rvalue_registers(src) + lvalue_registers(dst),
        Instruction::LoadParameter { n, dst } => seq![dst],
        Instruction::Add(p) | Instruction::Subtract(p) | Instruction::Multiply(p)
        | Instruction::Divide(p) => rvalue_registers(p.a) + rvalue_registers(p.b)
            + lvalue_registers(p.dst),
        Instruction::Call { function, return_value } => match return_value {
            Some(l) => lvalue_registers(l),
            None => seq![],
        },
        Instruction::Return { value } => rvalue_registers(value),
        Instruction::Jump { offset } => seq![],
        Instruction::ConditionalJump { offset, value, condition } => lvalue_registers(value),
    }
}

/// `seen` with `r` behind it, unless `r` is in it already.
pub open spec fn note(seen: Seq<Register>, r: Register) -> Seq<Register> {
    if seen.contains(r) {
        seen
    } else {
        seen.push(r)
    }
}

/// `seen` with the registers of `regs` noted one after the other.
pub open spec fn note_all(seen: Seq<Register>, regs: Seq<Register>) -> Seq<Register>
    decreases regs.len(),
{
    if regs.len() == 0 {
        seen
    } else {
        note(note_all(seen, regs.drop_last()), regs.last())
    }
}

/// The distinct registers that the first `n` instructions name, in the order
/// in which they are first seen.
pub open spec fn registers_seen<USize: USizeBase>(ins: Seq<Instruction<USize>>, n: nat) -> Seq<
    Register,
>
    decreases n,
{
    if n == 0 {
        seq![]
    } else {
        note_all(registers_seen(ins, (n - 1) as nat), instruction_registers(ins[n - 1]))
    }
}

/// The distinct virtual registers of the function, in first-seen order.
pub open spec fn used_registers<USize: USizeBase>(f: Function<'_, USize>) -> Seq<Register> {
    registers_seen(f.instructions@, f.instructions@.len())
}

/// Noting one register is noting the sequence that holds it alone.
pub proof fn lemma_note_one(seen: Seq<Register>, r: Register)
    ensures
        note_all(seen, seq![r]) == note(seen, r),
{
    assert(seq![r].drop_last() =~= Seq::<Register>::empty());
    assert(note_all(seen, Seq::<Register>::empty()) == seen);
}

/// Noting `a + b` is noting `a` and then `b`.
pub proof fn lemma_note_concat(seen: Seq<Register>, a: Seq<Register>, b: Seq<Register>)
    ensures
        note_all(seen, a + b) == note_all(note_all(seen, a), b),
    decreases b.len(),
{
    if b.len() == 0 {
        assert(a + b =~= a);
    } else {
        assert((a + b).drop_last() =~= a + b.drop_last());
        lemma_note_concat(seen, a, b.drop_last());
    }
}

/// Noting registers keeps what was seen where it was, adds exactly the new
/// ones, and adds none twice.
pub proof fn lemma_note_all(seen: Seq<Register>, regs: Seq<Register>)
    ensures
        forall|r: Register|
            note_all(seen, regs).contains(r) <==> seen.contains(r) || regs.contains(r),
        seen.no_duplicates() ==> note_all(seen, regs).no_duplicates(),
        seen.len() <= note_all(seen, regs).len(),
        forall|i: int| 0 <= i < seen.len() ==> note_all(seen, regs)[i] == seen[i],
    decreases regs.len(),
{
    if regs.len() == 0 {
    } else {
        let before = note_all(seen, regs.drop_last());
        let last = regs.last();
        lemma_note_all(seen, regs.drop_last());
        assert forall|r: Register|
            note_all(seen, regs).contains(r) <==> seen.contains(r) || regs.contains(r) by {
            if note_all(seen, regs).contains(r) {
                let i = choose|i: int|
                    0 <= i < note_all(seen, regs).len() && note_all(seen, regs)[i] == r;
                if i < before.len() {
                    assert(before.contains(r));
                    if !seen.contains(r) {
                        let j = choose|j: int|
                            0 <= j < regs.drop_last().len() && regs.drop_last()[j] == r;
                        assert(regs[j] == r);
                    }
                } else {
                    assert(r == last);
                    assert(regs[regs.len() - 1] == r);
                }
            }
            if seen.contains(r) {
                assert(before.contains(r));
                let i = choose|i: int| 0 <= i < before.len() && before[i] == r;
                assert(note_all(seen, regs)[i] == r);
            }
            if regs.contains(r) {
                let j = choose|j: int| 0 <= j < regs.len() && regs[j] == r;
                if j < regs.len() - 1 {
                    assert(regs.drop_last()[j] == r);
                    assert(before.contains(r));
                    let i = choose|i: int| 0 <= i < before.len() && before[i] == r;
                    assert(note_all(seen, regs)[i] == r);
                } else {
                    if before.contains(r) {
                    } else {
                        assert(note_all(seen, regs)[before.len() as int] == r);
                    }
                }
            }
        }
    }
}

/// Whether one of the first `n` instructions names the register.
pub open spec fn is_named<USize: USizeBase>(
    ins: Seq<Instruction<USize>>,
    n: nat,
    r: Register,
) -> bool {
    exists|i: int| 0 <= i < n && #[trigger] instruction_registers(ins[i]).contains(r)
}

/// The registers seen in the first `n` instructions are those that one of
/// these instructions names, each of them once.
pub proof fn lemma_registers_seen<USize: USizeBase>(ins: Seq<Instruction<USize>>, n: nat)
    requires
        n <= ins.len(),
    ensures
        registers_seen(ins, n).no_duplicates(),
        forall|i: int, r: Register|
            0 <= i < n && instruction_registers(ins[i]).contains(r) ==> registers_seen(
                ins,
                n,
            ).contains(r),
        forall|r: Register| registers_seen(ins, n).contains(r) <==> is_named(ins, n, r),
    decreases n,
{
    if n > 0 {
        let before = registers_seen(ins, (n - 1) as nat);
        let named = instruction_registers(ins[n - 1]);
        lemma_registers_seen(ins, (n - 1) as nat);
        lemma_note_all(before, named);
        assert forall|r: Register| registers_seen(ins, n).contains(r) <==> is_named(
            ins,
            n,
            r,
        ) by {
            if is_named(ins, n, r) {
                let i = choose|i: int|
                    0 <= i < n && #[trigger] instruction_registers(ins[i]).contains(r);
                assert(registers_seen(ins, n).contains(r));
            }
            if registers_seen(ins, n).contains(r) {
                if before.contains(r) {
                    assert(is_named(ins, (n - 1) as nat, r));
                    let i = choose|i: int|
                        0 <= i < n - 1 && #[trigger] instruction_registers(ins[i]).contains(r);
                    assert(0 <= i < n && instruction_registers(ins[i]).contains(r));
                } else {
                    assert(instruction_registers(ins[n - 1]).contains(r));
                }
            }
        }
    } else {
        assert forall|r: Register| !registers_seen(ins, n).contains(r) by {
            assert(registers_seen(ins, n) =~= Seq::<Register>::empty());
        }
    }
}

fn note_register(seen: &mut Vec<Register>, r: Register)
    ensures
        final(seen)@ == note(old(seen)@, r),
{
    let mut i: usize = 0;
    while i < seen.len()
        invariant
            i <= seen.len(),
            seen@ == old(seen)@,
            forall|k: int| 0 <= k < i ==> seen@[k] != r,
        decreases seen.len() - i,
    {
        if seen[i] == r {
            return ;
        }
        i += 1;
    }
    seen.push(r);
}

fn note_lvalue<USize: USizeBase>(seen: &mut Vec<Register>, v: &LValue<USize>)
    ensures
        final(seen)@ == note_all(old(seen)@, lvalue_registers(*v)),
{
    match v {
        LValue::Reg(r) => {
            proof {
                lemma_note_one(seen@, *r);
            }
            note_register(seen, *r);
        },
        LValue::DerefReg(r) => {
            proof {
                lemma_note_one(seen@, *r);
            }
            note_register(seen, *r);
        },
        LValue::DerefAddr(_) => {},
    }
}

fn note_rvalue<USize: USizeBase>(seen: &mut Vec<Register>, v: &RValue<USize>)
    ensures
        final(seen)@ == note_all(old(seen)@, rvalue_registers(*v)),
{
    match v {
        RValue::Writeable(l) => note_lvalue(seen, l),
        RValue::Literal(_) => {},
    }
}

fn note_operator<USize: USizeBase>(seen: &mut Vec<Register>, p: &BinaryOperator<USize>)
    ensures
        final(seen)@ == note_all(
            old(seen)@,
            rvalue_registers(p.a) + rvalue_registers(p.b) + lvalue_registers(p.dst),
        ),
{
    proof {
        lemma_note_concat(seen@, rvalue_registers(p.a), rvalue_registers(p.b));
        lemma_note_concat(
            seen@,
            rvalue_registers(p.a) + rvalue_registers(p.b),
            lvalue_registers(p.dst),
        );
    }
    note_rvalue(seen, &p.a);
    note_rvalue(seen, &p.b);
    note_lvalue(seen, &p.dst);
}

fn note_instruction<USize: USizeBase>(seen: &mut Vec<Register>, ins: &Instruction<USize>)
    ensures
        final(seen)@ == note_all(old(seen)@, instruction_registers(*ins)),
{
    match ins {
        Instruction::Move { src, dst, value: _ } => {
            proof {
                lemma_note_concat(seen@, rvalue_registers(*src), lvalue_registers(*dst));
            }
            note_rvalue(seen, src);
            note_lvalue(seen, dst);
        },
        Instruction::LoadParameter { n: _, dst } => {
            proof {
                lemma_note_one(seen@, *dst);
            }
            note_register(seen, *dst);
        },
        Instruction::Add(p) => note_operator(seen, p),
        Instruction::Subtract(p) => note_operator(seen, p),
        Instruction::Multiply(p) => note_operator(seen, p),
        Instruction::Divide(p) => note_operator(seen, p),
        Instruction::Call { function: _, return_value } => {
            if let Some(l) = return_value {
                note_lvalue(seen, l);
            }
        },
        Instruction::Return { value } => note_rvalue(seen, value),
        Instruction::Jump { offset: _ } => {},
        Instruction::ConditionalJump { offset: _, value, condition: _ } => note_lvalue(seen, value),
    }
}

/// Whether the instruction at `j` is a conditional jump that lands on the
/// instruction at `d`.
pub open spec fn jumps_to<USize: USizeBase>(f: Function<'_, USize>, j: int, d: int) -> bool {
    &&& 0 <= j < f.instructions@.len()
    &&& f.instructions@[j] matches Instruction::ConditionalJump { offset, .. }
    &&& 0 <= d < f.instructions@.len()
    &&& d == j + offset
}

/// Whether some conditional jump of the function lands on the instruction
/// at `d`.
pub open spec fn is_jump_target<USize: USizeBase>(f: Function<'_, USize>, d: int) -> bool {
    exists|j: int| jumps_to(f, j, d)
}

/// Whether the instruction at `j` is a conditional jump that lands outside
/// the function.
pub open spec fn jumps_astray<USize: USizeBase>(f: Function<'_, USize>, j: int) -> bool {
    &&& 0 <= j < f.instructions@.len()
    &&& f.instructions@[j] matches Instruction::ConditionalJump { offset, .. }
    &&& !(0 <= j + offset < f.instructions@.len())
}

/// The first of the first `n` instructions that jumps astray.
pub open spec fn first_stray_jump<USize: USizeBase>(f: Function<'_, USize>, n: nat) -> Option<
    usize,
>
    decreases n,
{
    if n == 0 {
        None
    } else {
        match first_stray_jump(f, (n - 1) as nat) {
            Some(j) => Some(j),
            None => if jumps_astray(f, n - 1) {
                Some((n - 1) as usize)
            } else {
                None
            },
        }
    }
}

/// `first_stray_jump` is the least index below `n` at which a conditional
/// jump leaves the function, and `None` where there is no such index.
pub proof fn lemma_first_stray_jump<USize: USizeBase>(f: Function<'_, USize>, n: nat)
    requires
        n <= f.instructions@.len(),
    ensures
        match first_stray_jump(f, n) {
            Some(j) => j < n && jumps_astray(f, j as int) && forall|k: int|
                0 <= k < j ==> !jumps_astray(f, k),
            None => forall|k: int| 0 <= k < n ==> !jumps_astray(f, k),
        },
    decreases n,
{
    assert(f.instructions@.len() == f.instructions.len());
    if n > 0 {
        lemma_first_stray_jump(f, (n - 1) as nat);
    }
}

/// A stray jump that was found among the first `n` instructions stays the
/// first one when more instructions are looked at.
pub proof fn lemma_first_stray_jump_stays<USize: USizeBase>(
    f: Function<'_, USize>,
    n: nat,
    m: nat,
)
    requires
        n <= m,
        first_stray_jump(f, n).is_some(),
    ensures
        first_stray_jump(f, m) == first_stray_jump(f, n),
    decreases m,
{
    if n < m {
        lemma_first_stray_jump_stays(f, n, (m - 1) as nat);
    }
}

/// The first pass: the virtual registers of the function in first-seen
/// order, and for each instruction whether a conditional jump lands on it.
/// Fails with the index of the first conditional jump that leaves the
/// function.
pub fn scan(func: &Function<'_, USize64>) -> (r: Result<(Vec<Register>, Vec<bool>), usize>)
    ensures
        match first_stray_jump(*func, func.instructions@.len()) {
            Some(j) => r == Err::<(Vec<Register>, Vec<bool>), usize>(j),
            None => {
                &&& r matches Ok((regs, marks))
                &&& regs@ == used_registers(*func)
                &&& marks@.len() == func.instructions@.len()
                &&& forall|d: int|
                    0 <= d < marks@.len() ==> marks@[d] == is_jump_target(*func, d)
            },
        },
{
    let len: usize = func.instructions.len();
    let mut regs: Vec<Register> = Vec::new();
    let mut marks: Vec<bool> = Vec::new();
    let mut k: usize = 0;
    while k < len
        invariant
            k <= len,
            marks@.len() == k,
            forall|d: int| 0 <= d < k ==> !marks@[d],
        decreases len - k,
    {
        marks.push(false);
        k += 1;
    }
    let mut i: usize = 0;
    while i < len
        invariant
            i <= len,
            len == func.instructions@.len(),
            regs@ == registers_seen(func.instructions@, i as nat),
            first_stray_jump(*func, i as nat).is_none(),
            marks@.len() == len,
            forall|d: int|
                0 <= d < len ==> (marks@[d] <==> exists|j: int|
                    0 <= j < i && #[trigger] jumps_to(*func, j, d)),
        decreases len - i,
    {
        let ins = &func.instructions[i];
        note_instruction(&mut regs, ins);
        let ghost before = marks@;
        if let Instruction::ConditionalJump { offset, value: _, condition: _ } = ins {
            match func.compute_ins_offset(i, *offset) {
                Ok(d) => {
                    marks.set(d, true);
                    assert(jumps_to(*func, i as int, d as int));
                },
                Err(_) => {
                    assert(jumps_astray(*func, i as int));
                    assert(first_stray_jump(*func, (i + 1) as nat) == Some(i));
                    proof {
                        lemma_first_stray_jump_stays(*func, (i + 1) as nat, len as nat);
                    }
                    return Err(i);
                },
            }
        }
        assert forall|d: int| 0 <= d < len implies (marks@[d] <==> exists|j: int|
            0 <= j < i + 1 && #[trigger] jumps_to(*func, j, d)) by {
            if marks@[d] {
                if before[d] {
                    let j = choose|j: int| 0 <= j < i && #[trigger] jumps_to(*func, j, d);
                    assert(0 <= j < i + 1 && jumps_to(*func, j, d));
                } else {
                    assert(jumps_to(*func, i as int, d));
                }
            }
            if exists|j: int| 0 <= j < i + 1 && #[trigger] jumps_to(*func, j, d) {
                let j = choose|j: int| 0 <= j < i + 1 && #[trigger] jumps_to(*func, j, d);
                if j < i {
                    assert(before[d]);
                }
            }
        }
        i += 1;
    }
    assert forall|d: int| 0 <= d < marks@.len() implies marks@[d] == is_jump_target(
        *func,
        d,
    ) by {
        if is_jump_target(*func, d) {
            let j = choose|j: int| jumps_to(*func, j, d);
            assert(0 <= j < i && jumps_to(*func, j, d));
        }
    }
    Ok((regs, marks))
}

} // verus!
