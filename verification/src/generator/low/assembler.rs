//! The x86 assembler that the lowering engine drives.
//!
//! The instructions are encoded by the `iced-x86` crate. Its assembler is
//! opaque to the verifier, so this module describes it by what it was told:
//! a log of the calls that it accepted. Everything here is believed, not
//! proved; the lowering engine is proved against it.
use iced_x86::code_asm::{AsmRegister32, AsmRegister64, CodeAssembler, CodeLabel};
use iced_x86::IcedError;
use vstd::prelude::*;

verus! {

/// The assembler of `iced-x86`.
#[verifier::external_type_specification]
#[verifier::external_body]
pub struct ExCodeAssembler(CodeAssembler);

/// A label of that assembler.
#[verifier::external_type_specification]
#[verifier::external_body]
pub struct ExCodeLabel(CodeLabel);

/// A 64 bit general purpose register, as the assembler's methods take it.
#[verifier::external_type_specification]
#[verifier::external_body]
pub struct ExAsmRegister64(AsmRegister64);

/// A 32 bit general purpose register, as the assembler's methods take it.
#[verifier::external_type_specification]
#[verifier::external_body]
pub struct ExAsmRegister32(AsmRegister32);

/// The error of `iced-x86`.
#[verifier::external_type_specification]
#[verifier::external_body]
pub struct ExIcedError(IcedError);

/// One call that an assembler accepted. Registers stand by their hardware
/// number (`rax` and `eax` are 0, `r10` and `r10d` are 10), labels by their id.
#[allow(inconsistent_fields)]
pub enum Emitted {
    /// The assembler was made for this bitness.
    Bitness(u32),
    /// `set_label`: the label is bound to what is added next.
    Label(int),
    /// `mov r64, r64`
    Mov64 { dst: int, src: int },
    /// `mov r64, imm64`
    MovImm64 { dst: int, imm: i64 },
    /// `add r64, r64`
    Add64 { dst: int, src: int },
    /// `add r64, imm32`
    AddImm32 { dst: int, imm: i32 },
    /// `sub r64, r64`
    Sub64 { dst: int, src: int },
    /// `sub r64, imm32`
    SubImm32 { dst: int, imm: i32 },
    /// `imul r64, r64`
    Imul64 { dst: int, src: int },
    /// `imul r32, [label]`
    Imul32Mem { dst: int, label: int },
    /// `jmp label`
    Jmp(int),
    /// `db`: the bytes as they are.
    Data(Seq<u8>),
}

/// The calls that the assembler has accepted since it was made, in order. A
/// label that waits for the next instruction stands at the end.
pub uninterp spec fn emitted(a: CodeAssembler) -> Seq<Emitted>;

/// How many labels the assembler has created.
pub uninterp spec fn labels_created(a: CodeAssembler) -> nat;

/// Whether the assembler is as `CodeAssembler::new` and the methods that
/// this module calls leave it: no prefix and no anonymous label waits for
/// the next instruction, and the options are those that `new` sets. The
/// methods that change this (`lock`, `rep`, `anonymous_label`, `fwd`,
/// `set_prefer_short_branch` and their like) are not called here.
pub uninterp spec fn plain(a: CodeAssembler) -> bool;

/// The id of a label: the assembler numbers its labels from 1 as it creates
/// them, and tells them apart by that number alone. A label that no
/// assembler has created has the id 0.
pub uninterp spec fn label_id(l: CodeLabel) -> int;

/// Whether the label has been bound to an instruction by `set_label`. A
/// label is bound once.
pub uninterp spec fn label_bound(l: CodeLabel) -> bool;

/// The hardware number of a 64 bit register: what `Register::number` of
/// `iced-x86` returns for it.
pub uninterp spec fn gpr64_number(r: AsmRegister64) -> int;

/// The hardware number of a 32 bit register: what `Register::number` of
/// `iced-x86` returns for it.
pub uninterp spec fn gpr32_number(r: AsmRegister32) -> int;

/// Whether `CodeAssembler::assemble` succeeds on a plain assembler that
/// accepted the calls of `log`, with `ip` as the address of the first byte.
pub uninterp spec fn accepted(log: Seq<Emitted>, ip: u64) -> bool;

/// The bytes that `CodeAssembler::assemble` returns for a plain assembler
/// that accepted the calls of `log`, with `ip` as the address of the first
/// byte.
pub uninterp spec fn machine_code(log: Seq<Emitted>, ip: u64) -> Seq<u8>;

/// Whether a label waits for the next instruction.
pub open spec fn ends_in_label(log: Seq<Emitted>) -> bool {
    log.len() > 0 && log.last() is Label
}

/// `CodeAssembler::new`: succeeds for a bitness of 16, 32 or 64 and for no
/// other. The new assembler is plain, holds no instruction and has created
/// no label.
#[verifier::external_body]
pub(crate) fn asm_new(bitness: u32) -> (r: Result<CodeAssembler, IcedError>)
    ensures
        r.is_ok() <==> (bitness == 16 || bitness == 32 || bitness == 64),
        r matches Ok(a) ==> emitted(a) == seq![Emitted::Bitness(bitness)] && labels_created(a)
            == 0 && plain(a),
{
    CodeAssembler::new(bitness)
}

/// `CodeAssembler::create_label`: a new label that is not bound, whose id is
/// one more than the number of labels created before. Nothing else changes.
/// The assembler counts its labels in 64 bits.
#[verifier::external_body]
pub(crate) fn asm_create_label(a: &mut CodeAssembler) -> (l: CodeLabel)
    requires
        labels_created(*old(a)) < u64::MAX,
    ensures
        labels_created(*final(a)) == labels_created(*old(a)) + 1,
        label_id(l) == labels_created(*old(a)) + 1,
        !label_bound(l),
        emitted(*final(a)) == emitted(*old(a)),
        plain(*final(a)) == plain(*old(a)),
{
    a.create_label()
}

/// `CodeAssembler::set_label`: binds the label to the instruction or data
/// that is added next. It fails for a label that no assembler has created,
/// for one that is bound already, and where another label waits for the
/// next instruction; it succeeds otherwise.
#[verifier::external_body]
pub(crate) fn asm_set_label(a: &mut CodeAssembler, label: CodeLabel) -> (r: Result<(), IcedError>)
    ensures
        r.is_ok() <==> (label_id(label) != 0 && !label_bound(label) && !ends_in_label(
            emitted(*old(a)),
        )),
        r.is_ok() ==> emitted(*final(a)) == emitted(*old(a)).push(
            Emitted::Label(label_id(label)),
        ),
        labels_created(*final(a)) == labels_created(*old(a)),
        plain(*final(a)) == plain(*old(a)),
{
    let mut label = label;
    a.set_label(&mut label)
}

/// `rax` of `iced_x86::code_asm`: the 64 bit register 0.
#[verifier::external_body]
pub(crate) fn gpr64_rax() -> (r: AsmRegister64)
    ensures
        gpr64_number(r) == 0,
{
    iced_x86::code_asm::rax
}

/// `r10` of `iced_x86::code_asm`: the 64 bit register 10.
#[verifier::external_body]
pub(crate) fn gpr64_r10() -> (r: AsmRegister64)
    ensures
        gpr64_number(r) == 10,
{
    iced_x86::code_asm::r10
}

/// `r11` of `iced_x86::code_asm`: the 64 bit register 11.
#[verifier::external_body]
pub(crate) fn gpr64_r11() -> (r: AsmRegister64)
    ensures
        gpr64_number(r) == 11,
{
    iced_x86::code_asm::r11
}

/// `eax` of `iced_x86::code_asm`: the 32 bit register 0.
#[verifier::external_body]
pub(crate) fn gpr32_eax() -> (r: AsmRegister32)
    ensures
        gpr32_number(r) == 0,
{
    iced_x86::code_asm::eax
}

/// `r10d` of `iced_x86::code_asm`: the 32 bit register 10.
#[verifier::external_body]
pub(crate) fn gpr32_r10d() -> (r: AsmRegister32)
    ensures
        gpr32_number(r) == 10,
{
    iced_x86::code_asm::r10d
}

/// `r11d` of `iced_x86::code_asm`: the 32 bit register 11.
#[verifier::external_body]
pub(crate) fn gpr32_r11d() -> (r: AsmRegister32)
    ensures
        gpr32_number(r) == 11,
{
    iced_x86::code_asm::r11d
}

/// `CodeAssembler::mov` on two 64 bit registers: `mov dst, src` is added.
/// A plain assembler takes every such instruction.
#[verifier::external_body]
pub(crate) fn asm_mov(
    a: &mut CodeAssembler,
    dst: AsmRegister64,
    src: AsmRegister64,
) -> (r: Result<(), IcedError>)
    requires
        plain(*old(a)),
    ensures
        r.is_ok(),
        emitted(*final(a)) == emitted(*old(a)).push(
            Emitted::Mov64 { dst: gpr64_number(dst), src: gpr64_number(src) },
        ),
        labels_created(*final(a)) == labels_created(*old(a)),
        plain(*final(a)),
{
    a.mov(dst, src)
}

/// `CodeAssembler::mov` on a 64 bit register and an `i64`: `mov dst, imm`
/// is added, whatever the immediate is.
#[verifier::external_body]
pub(crate) fn asm_mov_imm(
    a: &mut CodeAssembler,
    dst: AsmRegister64,
    imm: i64,
) -> (r: Result<(), IcedError>)
    requires
        plain(*old(a)),
    ensures
        r.is_ok(),
        emitted(*final(a)) == emitted(*old(a)).push(
            Emitted::MovImm64 { dst: gpr64_number(dst), imm },
        ),
        labels_created(*final(a)) == labels_created(*old(a)),
        plain(*final(a)),
{
    a.mov(dst, imm)
}

/// `CodeAssembler::add` on two 64 bit registers: `add dst, src` is added.
#[verifier::external_body]
pub(crate) fn asm_add(
    a: &mut CodeAssembler,
    dst: AsmRegister64,
    src: AsmRegister64,
) -> (r: Result<(), IcedError>)
    requires
        plain(*old(a)),
    ensures
        r.is_ok(),
        emitted(*final(a)) == emitted(*old(a)).push(
            Emitted::Add64 { dst: gpr64_number(dst), src: gpr64_number(src) },
        ),
        labels_created(*final(a)) == labels_created(*old(a)),
        plain(*final(a)),
{
    a.add(dst, src)
}

/// `CodeAssembler::add` on a 64 bit register and an `i32`: `add dst, imm`
/// is added, in the form that the method picks for the register and the
/// immediate.
#[verifier::external_body]
pub(crate) fn asm_add_imm(
    a: &mut CodeAssembler,
    dst: AsmRegister64,
    imm: i32,
) -> (r: Result<(), IcedError>)
    requires
        plain(*old(a)),
    ensures
        r.is_ok(),
        emitted(*final(a)) == emitted(*old(a)).push(
            Emitted::AddImm32 { dst: gpr64_number(dst), imm },
        ),
        labels_created(*final(a)) == labels_created(*old(a)),
        plain(*final(a)),
{
    a.add(dst, imm)
}

/// `CodeAssembler::sub` on two 64 bit registers: `sub dst, src` is added.
#[verifier::external_body]
pub(crate) fn asm_sub(
    a: &mut CodeAssembler,
    dst: AsmRegister64,
    src: AsmRegister64,
) -> (r: Result<(), IcedError>)
    requires
        plain(*old(a)),
    ensures
        r.is_ok(),
        emitted(*final(a)) == emitted(*old(a)).push(
            Emitted::Sub64 { dst: gpr64_number(dst), src: gpr64_number(src) },
        ),
        labels_created(*final(a)) == labels_created(*old(a)),
        plain(*final(a)),
{
    a.sub(dst, src)
}

/// `CodeAssembler::sub` on a 64 bit register and an `i32`: `sub dst, imm`
/// is added, in the form that the method picks for the register and the
/// immediate.
#[verifier::external_body]
pub(crate) fn asm_sub_imm(
    a: &mut CodeAssembler,
    dst: AsmRegister64,
    imm: i32,
) -> (r: Result<(), IcedError>)
    requires
        plain(*old(a)),
    ensures
        r.is_ok(),
        emitted(*final(a)) == emitted(*old(a)).push(
            Emitted::SubImm32 { dst: gpr64_number(dst), imm },
        ),
        labels_created(*final(a)) == labels_created(*old(a)),
        plain(*final(a)),
{
    a.sub(dst, imm)
}

/// `CodeAssembler::imul_2` on two 64 bit registers: `imul dst, src` is
/// added.
#[verifier::external_body]
pub(crate) fn asm_imul(
    a: &mut CodeAssembler,
    dst: AsmRegister64,
    src: AsmRegister64,
) -> (r: Result<(), IcedError>)
    requires
        plain(*old(a)),
    ensures
        r.is_ok(),
        emitted(*final(a)) == emitted(*old(a)).push(
            Emitted::Imul64 { dst: gpr64_number(dst), src: gpr64_number(src) },
        ),
        labels_created(*final(a)) == labels_created(*old(a)),
        plain(*final(a)),
{
    a.imul_2(dst, src)
}

/// `CodeAssembler::imul_2` on a 32 bit register and the memory at a label, as
/// `ptr` of `iced_x86::code_asm` makes it from the label: `imul dst, [label]`
/// is added. Whether the label stands anywhere is looked at by `assemble`.
#[verifier::external_body]
pub(crate) fn asm_imul_mem(
    a: &mut CodeAssembler,
    dst: AsmRegister32,
    label: CodeLabel,
) -> (r: Result<(), IcedError>)
    requires
        plain(*old(a)),
    ensures
        r.is_ok(),
        emitted(*final(a)) == emitted(*old(a)).push(
            Emitted::Imul32Mem { dst: gpr32_number(dst), label: label_id(label) },
        ),
        labels_created(*final(a)) == labels_created(*old(a)),
        plain(*final(a)),
{
    a.imul_2(dst, iced_x86::code_asm::ptr(label))
}

/// `CodeAssembler::jmp` on a label: `jmp label` is added. Whether the label
/// stands anywhere is looked at by `assemble`.
#[verifier::external_body]
pub(crate) fn asm_jmp(
    a: &mut CodeAssembler,
    label: CodeLabel,
) -> (r: Result<(), IcedError>)
    requires
        plain(*old(a)),
    ensures
        r.is_ok(),
        emitted(*final(a)) == emitted(*old(a)).push(
            Emitted::Jmp(label_id(label)),
        ),
        labels_created(*final(a)) == labels_created(*old(a)),
        plain(*final(a)),
{
    a.jmp(label)
}

/// `CodeAssembler::db` on 1 to 16 bytes: the bytes are added as one piece of
/// data. (The method cuts more bytes into pieces, and adds nothing for none.)
#[verifier::external_body]
pub(crate) fn asm_db(
    a: &mut CodeAssembler,
    data: &[u8],
) -> (r: Result<(), IcedError>)
    requires
        plain(*old(a)),
        1 <= data@.len() <= 16,
    ensures
        r.is_ok(),
        emitted(*final(a)) == emitted(*old(a)).push(
            Emitted::Data(data@),
        ),
        labels_created(*final(a)) == labels_created(*old(a)),
        plain(*final(a)),
{
    a.db(data)
}

/// `CodeAssembler::assemble` on a plain assembler: whether it succeeds, and
/// the bytes that it then returns for code that starts at address `ip`,
/// depend on what the assembler was told and on nothing else.
#[verifier::external_body]
pub(crate) fn asm_assemble(a: &mut CodeAssembler, ip: u64) -> (r: Result<Vec<u8>, IcedError>)
    requires
        plain(*old(a)),
    ensures
        r.is_ok() == accepted(emitted(*old(a)), ip),
        r matches Ok(bytes) ==> bytes@ == machine_code(emitted(*old(a)), ip),
{
    a.assemble(ip)
}

} // verus!
