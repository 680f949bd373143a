//! From machine instructions to bytes: what the assembler is told.
use iced_x86::code_asm::{AsmRegister32, AsmRegister64, CodeAssembler};
use vstd::bytes::{spec_u32_to_le_bytes, u32_to_le_bytes};
use vstd::prelude::*;

use super::plan::{AsmOp, PhysicalRegister};
use crate::generator::low::assembler::{
    accepted, asm_add, asm_add_imm, asm_assemble, asm_create_label, asm_db, asm_imul,
    asm_imul_mem, asm_jmp, asm_mov, asm_mov_imm, asm_new, asm_set_label, asm_sub, asm_sub_imm,
    emitted, ends_in_label, gpr32_eax, gpr32_number, gpr32_r10d, gpr32_r11d, gpr64_number,
    gpr64_r10, gpr64_r11, gpr64_rax, labels_created, machine_code, plain, Emitted,
};

verus! {

/// How many labels the assembler creates for one machine instruction.
pub open spec fn labels_for(op: AsmOp) -> nat {
    match op {
        AsmOp::Label { .. } => 1,
        AsmOp::MulData32 { .. } => 2,
        _ => 0,
    }
}

/// How many labels the assembler creates for the machine instructions.
pub open spec fn labels_of(ops: Seq<AsmOp>) -> nat
    decreases ops.len(),
{
    if ops.len() == 0 {
        0
    } else {
        labels_of(ops.drop_last()) + labels_for(ops.last())
    }
}

/// What the assembler is told for one machine instruction, after it has
/// created `labels` labels.
///
/// A multiplication by stored data takes two new labels, one for the
/// instruction behind the data and one for the data: a jump to the first,
/// the data under the second, and the multiplication under the first.
pub open spec fn calls_of(op: AsmOp, labels: int) -> Seq<Emitted> {
    match op {
        AsmOp::Label { instruction } => seq![Emitted::Label(labels + 1)],
        AsmOp::Mov { dst, src } => seq![Emitted::Mov64 { dst: dst.number(), src: src.number() }],
        AsmOp::MovImm { dst, imm } => seq![Emitted::MovImm64 { dst: dst.number(), imm }],
        AsmOp::Add { dst, src } => seq![Emitted::Add64 { dst: dst.number(), src: src.number() }],
        AsmOp::AddImm { dst, imm } => seq![Emitted::AddImm32 { dst: dst.number(), imm }],
        AsmOp::Sub { dst, src } => seq![Emitted::Sub64 { dst: dst.number(), src: src.number() }],
        AsmOp::SubImm { dst, imm } => seq![Emitted::SubImm32 { dst: dst.number(), imm }],
        AsmOp::Mul { dst, src } => seq![Emitted::Imul64 { dst: dst.number(), src: src.number() }],
        AsmOp::MulData32 { dst, data } => seq![
            Emitted::Jmp(labels + 1),
            Emitted::Label(labels + 2),
            Emitted::Data(spec_u32_to_le_bytes(data)),
            Emitted::Label(labels + 1),
            Emitted::Imul32Mem { dst: dst.number(), label: labels + 2 },
        ],
    }
}

/// What a 64 bit assembler is told for the machine instructions, from its
/// creation on.
pub open spec fn log_of(ops: Seq<AsmOp>) -> Seq<Emitted>
    decreases ops.len(),
{
    if ops.len() == 0 {
        seq![Emitted::Bitness(64)]
    } else {
        log_of(ops.drop_last()) + calls_of(ops.last(), labels_of(ops.drop_last()) as int)
    }
}

/// Whether the assembler takes the machine instruction, after it has
/// created `labels` labels. It counts its labels in 64 bits, and takes no
/// label while another one waits for its instruction; it takes everything
/// else.
pub open spec fn can_tell(op: AsmOp, labels: nat, waiting: bool) -> bool {
    match op {
        AsmOp::Label { .. } => labels < u64::MAX && !waiting,
        AsmOp::MulData32 { .. } => labels + 2 <= u64::MAX,
        _ => true,
    }
}

/// Whether the assembler takes the machine instructions one after the
/// other: it has labels enough for them, and none of them is a label that
/// stands directly behind another label.
pub open spec fn tellable(ops: Seq<AsmOp>) -> bool {
    &&& labels_of(ops) <= u64::MAX
    &&& forall|k: int| 0 < k < ops.len() && (#[trigger] ops[k]) is Label ==> !(ops[k - 1] is Label)
}

/// Whether the machine instructions can be encoded as code at address `ip`:
/// the assembler takes them and accepts them as a whole.
pub open spec fn encodable(ops: Seq<AsmOp>, ip: u64) -> bool {
    tellable(ops) && accepted(log_of(ops), ip)
}

/// What the assembler was told ends in a label where the last machine
/// instruction is one.
pub proof fn lemma_log_ends(ops: Seq<AsmOp>)
    ensures
        ends_in_label(log_of(ops)) <==> ops.len() > 0 && ops.last() is Label,
{
    if ops.len() > 0 {
        let calls = calls_of(ops.last(), labels_of(ops.drop_last()) as int);
        assert(log_of(ops).last() == calls.last());
    }
}

/// More machine instructions take no fewer labels.
pub proof fn lemma_labels_grow(ops: Seq<AsmOp>, n: int)
    requires
        0 <= n <= ops.len(),
    ensures
        labels_of(ops.take(n)) <= labels_of(ops),
    decreases ops.len() - n,
{
    if n < ops.len() {
        lemma_labels_grow(ops, n + 1);
        assert(ops.take(n + 1).drop_last() =~= ops.take(n));
    } else {
        assert(ops.take(n) =~= ops);
    }
}

/// The assembler takes the first `n + 1` machine instructions where it
/// takes the first `n` and then the one behind them.
pub proof fn lemma_tellable_step(ops: Seq<AsmOp>, n: int)
    requires
        0 <= n < ops.len(),
    ensures
        tellable(ops.take(n + 1)) <==> tellable(ops.take(n)) && can_tell(
            ops[n],
            labels_of(ops.take(n)),
            ends_in_label(log_of(ops.take(n))),
        ),
{
    let before = ops.take(n);
    let now = ops.take(n + 1);
    assert(now.drop_last() =~= before);
    assert(now.last() == ops[n]);
    lemma_log_ends(before);
    if tellable(now) {
        assert forall|k: int| 0 < k < before.len() && (#[trigger] before[k]) is Label implies !(
        before[k - 1] is Label) by {
            assert(now[k] is Label);
        }
        if n > 0 && ops[n] is Label {
            assert(now[n] is Label);
            assert(before.last() == now[n - 1]);
        }
    }
    if tellable(before) && can_tell(ops[n], labels_of(before), ends_in_label(log_of(before))) {
        assert forall|k: int| 0 < k < now.len() && (#[trigger] now[k]) is Label implies !(now[k
            - 1] is Label) by {
            if k < n {
                assert(before[k] is Label);
            } else {
                assert(before.last() == now[k - 1]);
            }
        }
    }
}

/// Where the assembler takes the machine instructions it takes the first
/// `n` of them.
pub proof fn lemma_tellable_prefix(ops: Seq<AsmOp>, n: int)
    requires
        0 <= n <= ops.len(),
        tellable(ops),
    ensures
        tellable(ops.take(n)),
{
    lemma_labels_grow(ops, n);
    let first = ops.take(n);
    assert forall|k: int| 0 < k < first.len() && (#[trigger] first[k]) is Label implies !(first[k
        - 1] is Label) by {
        assert(ops[k] is Label);
    }
}

fn gpr64(p: PhysicalRegister) -> (r: AsmRegister64)
    ensures
        gpr64_number(r) == p.number(),
{
    match p {
        PhysicalRegister::Rax => gpr64_rax(),
        PhysicalRegister::R10 => gpr64_r10(),
        PhysicalRegister::R11 => gpr64_r11(),
    }
}

fn gpr32(p: PhysicalRegister) -> (r: AsmRegister32)
    ensures
        gpr32_number(r) == p.number(),
{
    match p {
        PhysicalRegister::Rax => gpr32_eax(),
        PhysicalRegister::R10 => gpr32_r10d(),
        PhysicalRegister::R11 => gpr32_r11d(),
    }
}

/// Tells the assembler one machine instruction. `created` counts the labels
/// of the assembler. Answers whether the assembler took it.
fn assemble_op(a: &mut CodeAssembler, created: &mut u64, op: AsmOp) -> (done: bool)
    requires
        *old(created) == labels_created(*old(a)),
        plain(*old(a)),
    ensures
        done <==> can_tell(op, labels_created(*old(a)), ends_in_label(emitted(*old(a)))),
        done ==> {
            &&& emitted(*final(a)) == emitted(*old(a)) + calls_of(
                op,
                labels_created(*old(a)) as int,
            )
            &&& labels_created(*final(a)) == labels_created(*old(a)) + labels_for(op)
            &&& *final(created) == labels_created(*final(a))
            &&& plain(*final(a))
        },
{
    let ghost log = emitted(*a);
    let accepted = match op {
        AsmOp::Label { instruction: _ } => {
            if *created == u64::MAX {
                return false;
            }
            let label = asm_create_label(a);
            *created = *created + 1;
            asm_set_label(a, label)
        },
        AsmOp::Mov { dst, src } => asm_mov(a, gpr64(dst), gpr64(src)),
        AsmOp::MovImm { dst, imm } => asm_mov_imm(a, gpr64(dst), imm),
        AsmOp::Add { dst, src } => asm_add(a, gpr64(dst), gpr64(src)),
        AsmOp::AddImm { dst, imm } => asm_add_imm(a, gpr64(dst), imm),
        AsmOp::Sub { dst, src } => asm_sub(a, gpr64(dst), gpr64(src)),
        AsmOp::SubImm { dst, imm } => asm_sub_imm(a, gpr64(dst), imm),
        AsmOp::Mul { dst, src } => asm_imul(a, gpr64(dst), gpr64(src)),
        AsmOp::MulData32 { dst, data } => {
            if *created >= u64::MAX - 1 {
                return false;
            }
            let resume = asm_create_label(a);
            let stored = asm_create_label(a);
            *created = *created + 2;
            if asm_jmp(a, resume).is_err() {
                return false;
            }
            if asm_set_label(a, stored).is_err() {
                return false;
            }
            let bytes = u32_to_le_bytes(data);
            if asm_db(a, bytes.as_slice()).is_err() {
                return false;
            }
            if asm_set_label(a, resume).is_err() {
                return false;
            }
            let multiplied = asm_imul_mem(a, gpr32(dst), stored);
            assert(emitted(*a) =~= log + calls_of(op, *created - 2));
            multiplied
        },
    };
    assert(accepted.is_ok() ==> emitted(*a) =~= log + calls_of(
        op,
        labels_created(*old(a)) as int,
    ));
    accepted.is_ok()
}

/// Encodes the machine instructions for a 64 bit processor, as code that
/// starts at the address `ip`. There is a result exactly where the
/// instructions are encodable: where the assembler takes each of them in
/// turn and accepts them as a whole.
pub fn assemble(ops: &Vec<AsmOp>, ip: u64) -> (r: Option<Vec<u8>>)
    ensures
        r.is_some() <==> encodable(ops@, ip),
        r matches Some(bytes) ==> bytes@ == machine_code(log_of(ops@), ip),
{
    let mut a = match asm_new(64) {
        Ok(a) => a,
        Err(_) => {
            return None;
        },
    };
    let mut created: u64 = 0;
    let mut i: usize = 0;
    assert(ops@.take(0) =~= Seq::<AsmOp>::empty());
    while i < ops.len()
        invariant
            i <= ops.len(),
            plain(a),
            created == labels_created(a),
            labels_created(a) == labels_of(ops@.take(i as int)),
            emitted(a) == log_of(ops@.take(i as int)),
            tellable(ops@.take(i as int)),
        decreases ops.len() - i,
    {
        let ghost before = ops@.take(i as int);
        let ghost now = ops@.take(i + 1);
        assert(now.drop_last() =~= before);
        assert(now.last() == ops@[i as int]);
        proof {
            lemma_tellable_step(ops@, i as int);
            if tellable(ops@) {
                lemma_tellable_prefix(ops@, i + 1);
            }
        }
        if !assemble_op(&mut a, &mut created, ops[i]) {
            return None;
        }
        i += 1;
    }
    assert(ops@.take(i as int) =~= ops@);
    match asm_assemble(&mut a, ip) {
        Ok(bytes) => Some(bytes),
        Err(_) => None,
    }
}

} // verus!
