use sacc::diagnostic::SourceIndex;
use sacc::generator::high::{
    BinaryOperator, CompilationUnit, Function, FunctionRef, Instruction, IntegerSize,
    JumpCondition, LValue, PrimitiveValue, RValue, RegisterAllocator, USize32, USize64,
};
use sacc::generator::low::x86_64::{
    assemble, code_or_failure, gen_function, plan_function, AsmOp, PhysicalRegister,
};
use sacc::generator::low::x86_64::scan::scan;
use sacc::generator::low::{aarch64, do_codegen, x86_64, Backend, LoweringErrorKind};

fn signed32() -> PrimitiveValue {
    PrimitiveValue::Signed(IntegerSize::B32)
}

#[test]
fn it_works() {
    let result = 2 + 2;
    assert_eq!(result, 4);
}

#[test]
fn basic() {
    let one = RValue::Literal::<USize64>(1);
    let two = RValue::Literal::<USize64>(2);
    let five = RValue::Literal::<USize64>(5);

    let mut alloc = RegisterAllocator::new();
    let r1 = LValue::Reg(alloc.allocate().unwrap());
    let r2 = LValue::Reg(alloc.allocate().unwrap());
    let program = vec![
        // r1 = 1
        Instruction::Move { src: one, dst: r1, value: signed32() },
        // r1 = 2 + r1   (==3)
        Instruction::Add(BinaryOperator { a: two, b: RValue::Writeable(r1), dst: r1, value: signed32() }),
        // r1 = r1 * 2   (==6)
        Instruction::Multiply(BinaryOperator {
            a: RValue::Writeable(r1),
            b: two,
            dst: r1,
            value: signed32(),
        }),
        // r2 = 2
        Instruction::Move { src: two, dst: r2, value: signed32() },
        // r2 = r1 / r2
        Instruction::Divide(BinaryOperator {
            a: RValue::Writeable(r1),
            b: RValue::Writeable(r2),
            dst: r2,
            value: signed32(),
        }),
        // r2 = r2 * 5
        Instruction::Multiply(BinaryOperator {
            a: RValue::Writeable(r2),
            b: five,
            dst: r2,
            value: signed32(),
        }),
    ];

    let function = Function::new("test", program);
    // the division has no lowering yet
    let failure = gen_function(function).unwrap_err();
    assert_eq!(failure.kind, LoweringErrorKind::UnimplementedFeature("divide"));
    assert_eq!(failure.name, Some("test"));
    assert_eq!(failure.instruction, Some(4));
}

#[test]
fn three_instructions_on_one_register() {
    let one = RValue::Literal::<USize64>(1);
    let two = RValue::Literal::<USize64>(2);
    let mut alloc = RegisterAllocator::new();
    let r1 = LValue::Reg(alloc.allocate().unwrap());
    let program = vec![
        Instruction::Move { src: one, dst: r1, value: signed32() },
        Instruction::Add(BinaryOperator { a: two, b: RValue::Writeable(r1), dst: r1, value: signed32() }),
        Instruction::Multiply(BinaryOperator {
            a: RValue::Writeable(r1),
            b: two,
            dst: r1,
            value: signed32(),
        }),
    ];
    let function = Function::new("test", program);
    let ops = plan_function(&function).unwrap();
    assert_eq!(
        ops,
        vec![
            AsmOp::MovImm { dst: PhysicalRegister::Rax, imm: 1 },
            AsmOp::AddImm { dst: PhysicalRegister::Rax, imm: 2 },
            AsmOp::MulData32 { dst: PhysicalRegister::Rax, data: 2 },
        ]
    );
    let bytes = gen_function(function).unwrap();
    assert_eq!(
        bytes,
        vec![
            // mov rax, 1
            0x48, 0xb8, 1, 0, 0, 0, 0, 0, 0, 0,
            // add rax, 2
            0x48, 0x05, 2, 0, 0, 0,
            // jmp over the data
            0xeb, 0x04,
            // the literal 2
            2, 0, 0, 0,
            // imul eax, [rip - 11]
            0x0f, 0xaf, 0x05, 0xf5, 0xff, 0xff, 0xff,
        ]
    );
    assert_eq!(Some(bytes.clone()), assemble(&ops, 0));

    // decoded, these are the three instructions, all on rax
    let mut decoder = iced_x86::Decoder::with_ip(64, &bytes, 0, iced_x86::DecoderOptions::NONE);
    let load = decoder.decode();
    assert_eq!(load.mnemonic(), iced_x86::Mnemonic::Mov);
    assert_eq!(load.op0_register(), iced_x86::Register::RAX);
    assert_eq!(load.immediate64(), 1);
    let add = decoder.decode();
    assert_eq!(add.mnemonic(), iced_x86::Mnemonic::Add);
    assert_eq!(add.op0_register(), iced_x86::Register::RAX);
    assert_eq!(add.immediate32(), 2);
    let jump = decoder.decode();
    assert_eq!(jump.mnemonic(), iced_x86::Mnemonic::Jmp);
    let data_at = decoder.position();
    let resume_at = jump.near_branch64() as usize;
    assert_eq!(resume_at, data_at + 4);
    decoder.set_position(resume_at).unwrap();
    decoder.set_ip(resume_at as u64);
    let multiply = decoder.decode();
    assert_eq!(multiply.mnemonic(), iced_x86::Mnemonic::Imul);
    assert_eq!(multiply.op0_register(), iced_x86::Register::EAX);
    assert_eq!(multiply.memory_base(), iced_x86::Register::RIP);
    assert_eq!(multiply.memory_displacement64(), data_at as u64);
    assert_eq!(bytes[data_at..resume_at], [2, 0, 0, 0]);
    assert!(!decoder.can_decode());
}

fn regs(n: usize) -> Vec<LValue<USize64>> {
    let mut alloc = RegisterAllocator::new();
    (0..n).map(|_| LValue::Reg(alloc.allocate().unwrap())).collect()
}

fn mov(dst: LValue<USize64>, src: RValue<USize64>) -> Instruction<USize64> {
    Instruction::Move { src, dst, value: signed32() }
}

fn op(a: RValue<USize64>, b: RValue<USize64>, dst: LValue<USize64>) -> BinaryOperator<USize64> {
    BinaryOperator { a, b, dst, value: signed32() }
}

fn kind_of(program: Vec<Instruction<USize64>>) -> (LoweringErrorKind, Option<usize>) {
    let e = gen_function(Function::new("f", program)).unwrap_err();
    assert_eq!(e.name, Some("f"));
    assert_eq!(e.function, None);
    (e.kind, e.instruction)
}

#[test]
fn lowering_twice_gives_the_same_bytes() {
    let r = regs(2);
    let program = vec![
        mov(r[0], RValue::Literal(7)),
        mov(r[1], RValue::Writeable(r[0])),
        Instruction::Add(op(RValue::Writeable(r[1]), RValue::Writeable(r[0]), r[1])),
        Instruction::Subtract(op(RValue::Writeable(r[1]), RValue::Literal(3), r[1])),
        Instruction::Multiply(op(RValue::Writeable(r[1]), RValue::Literal(5), r[1])),
        Instruction::Multiply(op(RValue::Writeable(r[0]), RValue::Writeable(r[1]), r[1])),
    ];
    let first = gen_function(Function::new("f", program.clone())).unwrap();
    let second = gen_function(Function::new("f", program)).unwrap();
    assert_eq!(first, second);
    assert!(!first.is_empty());
}

#[test]
fn registers_are_assigned_in_first_seen_order() {
    let r = regs(3);
    // r[2] is seen first, then r[0], then r[1]
    let program = vec![
        mov(r[2], RValue::Literal(1)),
        mov(r[0], RValue::Writeable(r[2])),
        mov(r[1], RValue::Writeable(r[0])),
    ];
    let ops = plan_function(&Function::new("f", program)).unwrap();
    assert_eq!(
        ops,
        vec![
            AsmOp::MovImm { dst: PhysicalRegister::Rax, imm: 1 },
            AsmOp::Mov { dst: PhysicalRegister::R10, src: PhysicalRegister::Rax },
            AsmOp::Mov { dst: PhysicalRegister::R11, src: PhysicalRegister::R10 },
        ]
    );
}

#[test]
fn source_is_seen_before_destination() {
    let r = regs(2);
    let program = vec![mov(r[0], RValue::Writeable(r[1]))];
    let ops = plan_function(&Function::new("f", program)).unwrap();
    assert_eq!(ops, vec![AsmOp::Mov { dst: PhysicalRegister::R10, src: PhysicalRegister::Rax }]);
}

#[test]
fn each_instruction_and_its_encoding() {
    let rax = PhysicalRegister::Rax;
    let r10 = PhysicalRegister::R10;
    let r11 = PhysicalRegister::R11;
    let code = |op: AsmOp| assemble(&vec![op], 0).unwrap();
    assert_eq!(code(AsmOp::Mov { dst: rax, src: r10 }), vec![0x4c, 0x89, 0xd0]);
    assert_eq!(code(AsmOp::Mov { dst: r11, src: rax }), vec![0x49, 0x89, 0xc3]);
    assert_eq!(
        code(AsmOp::MovImm { dst: r10, imm: -2 }),
        vec![0x49, 0xba, 0xfe, 0xff, 0xff, 0xff, 0xff, 0xff, 0xff, 0xff]
    );
    assert_eq!(code(AsmOp::Add { dst: rax, src: r11 }), vec![0x4c, 0x01, 0xd8]);
    assert_eq!(code(AsmOp::AddImm { dst: r10, imm: 2 }), vec![0x49, 0x83, 0xc2, 0x02]);
    assert_eq!(
        code(AsmOp::AddImm { dst: r10, imm: 0x1234 }),
        vec![0x49, 0x81, 0xc2, 0x34, 0x12, 0, 0]
    );
    assert_eq!(code(AsmOp::Sub { dst: r10, src: r11 }), vec![0x4d, 0x29, 0xda]);
    assert_eq!(code(AsmOp::SubImm { dst: rax, imm: 5 }), vec![0x48, 0x2d, 5, 0, 0, 0]);
    assert_eq!(code(AsmOp::Mul { dst: rax, src: r10 }), vec![0x49, 0x0f, 0xaf, 0xc2]);
    assert_eq!(
        code(AsmOp::MulData32 { dst: r10, data: 0x0102_0304 }),
        vec![0xeb, 0x04, 4, 3, 2, 1, 0x44, 0x0f, 0xaf, 0x15, 0xf4, 0xff, 0xff, 0xff]
    );
    assert_eq!(
        code(AsmOp::MulData32 { dst: r11, data: 1 }),
        vec![0xeb, 0x04, 1, 0, 0, 0, 0x44, 0x0f, 0xaf, 0x1d, 0xf4, 0xff, 0xff, 0xff]
    );
    assert_eq!(
        code(AsmOp::MulData32 { dst: rax, data: u32::MAX }),
        vec![0xeb, 0x04, 0xff, 0xff, 0xff, 0xff, 0x0f, 0xaf, 0x05, 0xf5, 0xff, 0xff, 0xff]
    );
}

#[test]
fn assembling_nothing_gives_nothing() {
    assert_eq!(assemble(&vec![], 0), Some(vec![]));
}

#[test]
fn a_label_at_the_end_is_refused() {
    let ops = vec![
        AsmOp::Mov { dst: PhysicalRegister::Rax, src: PhysicalRegister::R10 },
        AsmOp::Label { instruction: 1 },
    ];
    assert_eq!(assemble(&ops, 0), None);
}

#[test]
fn literals_are_cut_to_the_width_of_the_immediate() {
    let r = regs(1);
    let program = vec![
        mov(r[0], RValue::Literal(usize::MAX)),
        Instruction::Add(op(RValue::Writeable(r[0]), RValue::Literal(0x1_0000_0002), r[0])),
        Instruction::Subtract(op(RValue::Writeable(r[0]), RValue::Literal(0xffff_ffff), r[0])),
        Instruction::Multiply(op(RValue::Writeable(r[0]), RValue::Literal(0x7_0000_0009), r[0])),
    ];
    let ops = plan_function(&Function::new("f", program)).unwrap();
    let rax = PhysicalRegister::Rax;
    assert_eq!(
        ops,
        vec![
            AsmOp::MovImm { dst: rax, imm: -1 },
            AsmOp::AddImm { dst: rax, imm: 2 },
            AsmOp::SubImm { dst: rax, imm: -1 },
            AsmOp::MulData32 { dst: rax, data: 9 },
        ]
    );
}

#[test]
fn four_registers_exceed_the_budget() {
    let r = regs(4);
    let program = vec![
        mov(r[0], RValue::Literal(1)),
        mov(r[1], RValue::Literal(1)),
        mov(r[2], RValue::Literal(1)),
        mov(r[3], RValue::Literal(1)),
    ];
    assert_eq!(
        kind_of(program),
        (LoweringErrorKind::RegisterBudgetExceeded { needed: 4, available: 3 }, None)
    );
}

#[test]
fn three_registers_are_within_the_budget() {
    let r = regs(3);
    let program = vec![
        mov(r[0], RValue::Literal(1)),
        mov(r[1], RValue::Literal(1)),
        mov(r[2], RValue::Literal(1)),
        mov(r[0], RValue::Writeable(r[2])),
    ];
    assert!(gen_function(Function::new("f", program)).is_ok());
}

#[test]
fn registers_behind_pointers_and_in_every_instruction_count() {
    let mut alloc = RegisterAllocator::new();
    let a = alloc.allocate().unwrap();
    let b = alloc.allocate().unwrap();
    let c = alloc.allocate().unwrap();
    let d = alloc.allocate().unwrap();
    let e = alloc.allocate().unwrap();
    let program: Vec<Instruction<USize64>> = vec![
        Instruction::LoadParameter { n: 0, dst: a },
        Instruction::Call { function: FunctionRef(0), return_value: Some(LValue::DerefReg(b)) },
        Instruction::Return { value: RValue::Writeable(LValue::Reg(c)) },
        Instruction::ConditionalJump {
            offset: 0,
            value: LValue::Reg(d),
            condition: JumpCondition::Zero,
        },
        mov(LValue::DerefAddr(USize64(16)), RValue::Writeable(LValue::DerefReg(e))),
        mov(LValue::Reg(a), RValue::Writeable(LValue::Reg(a))),
    ];
    assert_eq!(
        kind_of(program),
        (LoweringErrorKind::RegisterBudgetExceeded { needed: 5, available: 3 }, None)
    );
}

#[test]
fn conditional_jump_before_the_function() {
    let r = regs(1);
    let program = vec![Instruction::ConditionalJump {
        offset: -1,
        value: r[0],
        condition: JumpCondition::NonZero,
    }];
    assert_eq!(kind_of(program), (LoweringErrorKind::OffsetOutOfRange, Some(0)));
}

#[test]
fn conditional_jump_behind_the_function() {
    let r = regs(1);
    let program = vec![
        mov(r[0], RValue::Literal(1)),
        Instruction::ConditionalJump { offset: 1, value: r[0], condition: JumpCondition::Zero },
    ];
    assert_eq!(kind_of(program), (LoweringErrorKind::OffsetOutOfRange, Some(1)));
}

#[test]
fn the_target_of_a_plain_jump_is_not_looked_at() {
    let r = regs(1);
    let program = vec![mov(r[0], RValue::Literal(1)), Instruction::Jump { offset: 1 }];
    assert_eq!(kind_of(program), (LoweringErrorKind::UnimplementedFeature("jump"), Some(1)));
}

#[test]
fn a_stray_jump_is_found_before_the_registers_are_counted() {
    let r = regs(4);
    let stray = |offset: isize| Instruction::ConditionalJump {
        offset,
        value: r[0],
        condition: JumpCondition::NonZero,
    };
    let program = vec![
        mov(r[0], RValue::Writeable(r[1])),
        mov(r[2], RValue::Writeable(r[3])),
        stray(-3),
        stray(7),
    ];
    assert_eq!(kind_of(program), (LoweringErrorKind::OffsetOutOfRange, Some(2)));
}

#[test]
fn jumps_inside_the_function_are_not_lowered_yet() {
    let r = regs(1);
    let program = vec![
        mov(r[0], RValue::Literal(1)),
        Instruction::ConditionalJump { offset: -1, value: r[0], condition: JumpCondition::Zero },
    ];
    assert_eq!(
        kind_of(program),
        (LoweringErrorKind::UnimplementedFeature("conditional-jump"), Some(1))
    );
    let program = vec![mov(r[0], RValue::Literal(1)), Instruction::Jump { offset: 0 }];
    assert_eq!(kind_of(program), (LoweringErrorKind::UnimplementedFeature("jump"), Some(1)));
    // the label before the instruction that is jumped to is part of the plan
    let program = vec![
        mov(r[0], RValue::Literal(1)),
        mov(r[0], RValue::Literal(2)),
        Instruction::Jump { offset: -1 },
    ];
    assert_eq!(kind_of(program), (LoweringErrorKind::UnimplementedFeature("jump"), Some(2)));
}

#[test]
fn divide_is_not_lowered() {
    let r = regs(2);
    let divide = Instruction::Divide(op(RValue::Writeable(r[0]), RValue::Writeable(r[1]), r[1]));
    assert_eq!(
        kind_of(vec![divide]),
        (LoweringErrorKind::UnimplementedFeature("divide"), Some(0))
    );
    let program = vec![mov(r[0], RValue::Literal(6)), mov(r[1], RValue::Literal(2)), divide];
    assert_eq!(kind_of(program), (LoweringErrorKind::UnimplementedFeature("divide"), Some(2)));
    let by_literal = Instruction::Divide(op(RValue::Writeable(r[0]), RValue::Literal(2), r[0]));
    assert_eq!(
        kind_of(vec![by_literal]),
        (LoweringErrorKind::UnimplementedFeature("divide"), Some(0))
    );
}

#[test]
fn divide_with_a_destination_of_its_own() {
    let r = regs(3);
    let divide = Instruction::Divide(op(RValue::Writeable(r[0]), RValue::Writeable(r[1]), r[2]));
    assert_eq!(kind_of(vec![divide]), (LoweringErrorKind::UnsupportedOperandShape, Some(0)));
}

#[test]
fn other_instructions_that_are_not_lowered() {
    let mut alloc = RegisterAllocator::new();
    let a = alloc.allocate().unwrap();
    assert_eq!(
        kind_of(vec![Instruction::LoadParameter { n: 0, dst: a }]),
        (LoweringErrorKind::UnimplementedFeature("load-parameter"), Some(0))
    );
    assert_eq!(
        kind_of(vec![Instruction::Call { function: FunctionRef(0), return_value: None }]),
        (LoweringErrorKind::UnimplementedFeature("call"), Some(0))
    );
    assert_eq!(
        kind_of(vec![Instruction::Return { value: RValue::Literal(0) }]),
        (LoweringErrorKind::UnimplementedFeature("return"), Some(0))
    );
}

#[test]
fn arithmetic_wants_its_destination_among_the_operands() {
    let r = regs(3);
    let bad = op(RValue::Writeable(r[0]), RValue::Writeable(r[1]), r[2]);
    for ins in [Instruction::Add(bad), Instruction::Subtract(bad), Instruction::Multiply(bad)] {
        let program = vec![mov(r[0], RValue::Literal(1)), ins];
        assert_eq!(kind_of(program), (LoweringErrorKind::UnsupportedOperandShape, Some(1)));
    }
}

#[test]
fn memory_operands_have_no_encoding() {
    let mut alloc = RegisterAllocator::new();
    let a = alloc.allocate().unwrap();
    let reg = LValue::<USize64>::Reg(a);
    let behind = LValue::<USize64>::DerefReg(a);
    let fixed = LValue::DerefAddr(USize64(0x1000));
    assert_eq!(
        kind_of(vec![mov(behind, RValue::Literal(1))]),
        (LoweringErrorKind::UnsupportedOperandShape, Some(0))
    );
    assert_eq!(
        kind_of(vec![mov(reg, RValue::Writeable(fixed))]),
        (LoweringErrorKind::UnsupportedOperandShape, Some(0))
    );
    assert_eq!(
        kind_of(vec![mov(fixed, RValue::Writeable(reg))]),
        (LoweringErrorKind::UnsupportedOperandShape, Some(0))
    );
    let add = Instruction::Add(op(RValue::Writeable(behind), RValue::Literal(1), behind));
    assert_eq!(kind_of(vec![add]), (LoweringErrorKind::UnsupportedOperandShape, Some(0)));
    let sub = Instruction::Subtract(op(RValue::Writeable(reg), RValue::Writeable(fixed), reg));
    assert_eq!(kind_of(vec![sub]), (LoweringErrorKind::UnsupportedOperandShape, Some(0)));
    let mul = Instruction::Multiply(op(RValue::Writeable(fixed), RValue::Literal(1), fixed));
    assert_eq!(kind_of(vec![mul]), (LoweringErrorKind::UnsupportedOperandShape, Some(0)));
}

#[test]
fn multiplication_by_a_literal_is_for_32_bits() {
    let r = regs(1);
    let by = |value: PrimitiveValue| {
        vec![Instruction::Multiply(BinaryOperator {
            a: RValue::Writeable(r[0]),
            b: RValue::Literal(3),
            dst: r[0],
            value,
        })]
    };
    assert!(gen_function(Function::new("f", by(PrimitiveValue::Signed(IntegerSize::B32)))).is_ok());
    assert!(gen_function(Function::new("f", by(PrimitiveValue::Unsigned(IntegerSize::B32)))).is_ok());
    for size in [IntegerSize::B8, IntegerSize::B16, IntegerSize::B64] {
        assert_eq!(
            kind_of(by(PrimitiveValue::Signed(size))),
            (LoweringErrorKind::UnsupportedWidth, Some(0))
        );
        assert_eq!(
            kind_of(by(PrimitiveValue::Unsigned(size))),
            (LoweringErrorKind::UnsupportedWidth, Some(0))
        );
    }
    assert_eq!(
        kind_of(by(PrimitiveValue::Pointer)),
        (LoweringErrorKind::UnsupportedWidth, Some(0))
    );
    assert_eq!(
        kind_of(by(PrimitiveValue::Floating(sacc::generator::high::FloatingSize::F32))),
        (LoweringErrorKind::UnimplementedFeature("floating-point"), Some(0))
    );
}

#[test]
fn multiplication_of_registers() {
    let r = regs(2);
    let of = |value: PrimitiveValue| {
        vec![Instruction::Multiply(BinaryOperator {
            a: RValue::Writeable(r[0]),
            b: RValue::Writeable(r[1]),
            dst: r[0],
            value,
        })]
    };
    let ops = plan_function(&Function::new("f", of(PrimitiveValue::Unsigned(IntegerSize::B8))));
    assert_eq!(
        ops.unwrap(),
        vec![AsmOp::Mul { dst: PhysicalRegister::Rax, src: PhysicalRegister::R10 }]
    );
    assert_eq!(
        kind_of(of(PrimitiveValue::Floating(sacc::generator::high::FloatingSize::F64))),
        (LoweringErrorKind::UnimplementedFeature("floating-point"), Some(0))
    );
    assert_eq!(
        kind_of(of(PrimitiveValue::Pointer)),
        (LoweringErrorKind::UnsupportedWidth, Some(0))
    );
}

#[test]
fn the_first_failure_counts() {
    let r = regs(2);
    let program = vec![
        mov(r[0], RValue::Literal(1)),
        Instruction::Return { value: RValue::Writeable(r[0]) },
        Instruction::Divide(op(RValue::Writeable(r[0]), RValue::Writeable(r[1]), r[1])),
    ];
    assert_eq!(kind_of(program), (LoweringErrorKind::UnimplementedFeature("return"), Some(1)));
}

#[test]
fn empty_function_lowers_to_nothing() {
    assert_eq!(gen_function(Function::<USize64>::new("nothing", vec![])), Ok(vec![]));
}

fn unit_of(programs: Vec<Vec<Instruction<USize64>>>) -> CompilationUnit<'static, USize64> {
    let names = ["first", "second", "third"];
    CompilationUnit::new(
        programs.into_iter().enumerate().map(|(i, p)| Function::new(names[i], p)).collect(),
        SourceIndex(0),
    )
}

#[test]
fn a_unit_is_lowered_function_by_function() {
    let r = regs(2);
    let first = vec![mov(r[0], RValue::Literal(1))];
    let second = vec![mov(r[1], RValue::Literal(2)), mov(r[0], RValue::Writeable(r[1]))];
    let code = x86_64::do_codegen(unit_of(vec![first.clone(), second.clone()])).unwrap();
    assert_eq!(code.len(), 2);
    assert_eq!(code[0], gen_function(Function::new("first", first)).unwrap());
    assert_eq!(code[1], gen_function(Function::new("second", second)).unwrap());
    // registers are assigned anew in each function
    assert_eq!(code[1][..2], code[0][..2]);
}

#[test]
fn a_unit_fails_with_its_first_failing_function() {
    let r = regs(1);
    let good = vec![mov(r[0], RValue::Literal(1))];
    let bad = vec![
        mov(r[0], RValue::Literal(1)),
        Instruction::ConditionalJump { offset: 5, value: r[0], condition: JumpCondition::Zero },
    ];
    let worse = vec![Instruction::Return { value: RValue::Literal(0) }];
    let e = x86_64::do_codegen(unit_of(vec![good, bad, worse])).unwrap_err();
    assert_eq!(e.kind, LoweringErrorKind::OffsetOutOfRange);
    assert_eq!(e.function, Some(FunctionRef(1)));
    assert_eq!(e.name, Some("second"));
    assert_eq!(e.instruction, Some(1));
}

#[test]
fn an_empty_unit_has_no_code() {
    assert_eq!(x86_64::do_codegen(unit_of(vec![])), Ok(vec![]));
}

#[test]
fn dispatch_to_x86_64() {
    let r = regs(1);
    let program = vec![mov(r[0], RValue::Literal(1))];
    let direct = x86_64::do_codegen(unit_of(vec![program.clone()]));
    let dispatched = do_codegen(Backend::X86_64(unit_of(vec![program])));
    assert_eq!(direct, dispatched);
    assert!(dispatched.is_ok());
}

#[test]
fn the_second_backend_is_a_stub() {
    let r = regs(1);
    let program = vec![mov(r[0], RValue::Literal(1))];
    let e = aarch64::do_codegen(unit_of(vec![program.clone()])).unwrap_err();
    assert_eq!(e.kind, LoweringErrorKind::UnimplementedFeature("secondary-isa"));
    assert_eq!((e.function, e.name, e.instruction), (None, None, None));
    let e = do_codegen(Backend::Aarch64(unit_of(vec![program]))).unwrap_err();
    assert_eq!(e.kind, LoweringErrorKind::UnimplementedFeature("secondary-isa"));
    let e = do_codegen(Backend::Aarch64(unit_of(vec![]))).unwrap_err();
    assert_eq!(e.kind, LoweringErrorKind::UnimplementedFeature("secondary-isa"));
}

#[test]
fn there_is_no_backend_for_armv7() {
    let unit = CompilationUnit::<USize32>::new(vec![], SourceIndex(0));
    let e = do_codegen(Backend::Armv7(unit)).unwrap_err();
    assert_eq!(e.kind, LoweringErrorKind::UnimplementedFeature("armv7"));
    assert_eq!((e.function, e.name, e.instruction), (None, None, None));
}

#[test]
fn what_the_assembler_answers_is_passed_on() {
    let f = Function::<USize64>::new("f", vec![]);
    assert_eq!(code_or_failure(&f, Some(vec![1, 2, 3])), Ok(vec![1, 2, 3]));
    let e = code_or_failure(&f, None).unwrap_err();
    assert_eq!(e.kind, LoweringErrorKind::Assembler);
    assert_eq!((e.function, e.name, e.instruction), (None, Some("f"), None));
}

#[test]
fn the_first_pass_finds_registers_and_jump_targets() {
    let mut alloc = RegisterAllocator::new();
    let a = alloc.allocate().unwrap();
    let b = alloc.allocate().unwrap();
    let c = alloc.allocate().unwrap();
    let jump_if = |offset: isize| Instruction::ConditionalJump {
        offset,
        value: LValue::Reg(c),
        condition: JumpCondition::Zero,
    };
    let program: Vec<Instruction<USize64>> = vec![
        mov(LValue::Reg(b), RValue::Writeable(LValue::DerefReg(c))),
        jump_if(2),
        Instruction::Add(op(RValue::Writeable(LValue::Reg(a)), RValue::Literal(1), LValue::Reg(b))),
        jump_if(-3),
        jump_if(0),
        // where a plain jump lands is not looked at
        Instruction::Jump { offset: -4 },
        Instruction::Jump { offset: 40 },
    ];
    let (registers, targets) = scan(&Function::new("f", program)).unwrap();
    assert_eq!(registers, vec![c, b, a]);
    assert_eq!(targets, vec![true, false, false, true, true, false, false]);
}

#[test]
fn the_first_pass_stops_at_the_first_stray_jump() {
    let mut alloc = RegisterAllocator::new();
    let a = LValue::Reg(alloc.allocate().unwrap());
    let jump_if =
        |offset: isize| Instruction::ConditionalJump { offset, value: a, condition: JumpCondition::Zero };
    let program: Vec<Instruction<USize64>> = vec![jump_if(1), jump_if(2), jump_if(-3)];
    assert_eq!(scan(&Function::new("f", program)), Err(1));
    assert_eq!(scan(&Function::<USize64>::new("f", vec![])), Ok((vec![], vec![])));
}

#[test]
fn code_at_another_address() {
    // the multiplication reads its data relative to where it stands, so that
    // the code is the same wherever it begins
    let ops = vec![AsmOp::MulData32 { dst: PhysicalRegister::Rax, data: 3 }];
    assert_eq!(assemble(&ops, 0), assemble(&ops, 0x1234_5678));
}

#[test]
fn two_multiplications_have_their_own_data() {
    let rax = PhysicalRegister::Rax;
    let ops = vec![AsmOp::MulData32 { dst: rax, data: 3 }, AsmOp::MulData32 { dst: rax, data: 5 }];
    let one = |data: u8| vec![0xeb, 0x04, data, 0, 0, 0, 0x0f, 0xaf, 0x05, 0xf5, 0xff, 0xff, 0xff];
    let mut expected = one(3);
    expected.extend(one(5));
    assert_eq!(assemble(&ops, 0), Some(expected));
}

#[test]
fn two_labels_in_a_row_are_refused() {
    let mov = AsmOp::Mov { dst: PhysicalRegister::Rax, src: PhysicalRegister::R10 };
    let label = |instruction| AsmOp::Label { instruction };
    assert_eq!(assemble(&vec![label(0), label(1), mov], 0), None);
    // one label before an instruction is taken, and adds no byte
    assert_eq!(assemble(&vec![label(0), mov, label(1), mov], 0), assemble(&vec![mov, mov], 0));
    assert!(assemble(&vec![label(0), AsmOp::MulData32 { dst: PhysicalRegister::Rax, data: 1 }], 0)
        .is_some());
}
