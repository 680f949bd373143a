use sacc::diagnostic::SourceIndex;
use sacc::generator::high::{
    BinaryOperator, CompilationUnit, Function, FunctionRef, Instruction, IntegerSize, LValue,
    PrimitiveValue, RValue, Register, RegisterAllocator, USize32, USize64, USizeBase,
    MAX_REGISTERS,
};

fn registers(n: usize) -> Vec<Register> {
    let mut alloc = RegisterAllocator::new();
    (0..n).map(|_| alloc.allocate().unwrap()).collect()
}

fn value() -> PrimitiveValue {
    PrimitiveValue::Signed(IntegerSize::B32)
}

#[test]
fn registers_count_up_from_one() {
    let regs = registers(5);
    let numbers: Vec<u16> = regs.iter().map(|r| r.number()).collect();
    assert_eq!(numbers, vec![1, 2, 3, 4, 5]);
}

#[test]
fn registers_are_distinct_and_increasing() {
    let regs = registers(1000);
    for pair in regs.windows(2) {
        assert!(pair[0].number() < pair[1].number());
        assert_ne!(pair[0], pair[1]);
    }
    assert!(regs.iter().all(|r| r.number() != 0));
}

#[test]
fn allocator_gives_out_65535_registers_and_no_more() {
    assert_eq!(MAX_REGISTERS, 65535);
    let mut alloc = RegisterAllocator::new();
    let mut last = 0;
    for _ in 0..65535 {
        let r = alloc.allocate().unwrap();
        assert!(r.number() > last);
        last = r.number();
    }
    assert_eq!(last, 65535);
    assert_eq!(alloc.allocate(), None);
    // it stays that way
    assert_eq!(alloc.allocate(), None);
}

#[test]
fn two_allocators_are_independent() {
    let mut a = RegisterAllocator::new();
    let mut b = RegisterAllocator::new();
    let a1 = a.allocate().unwrap();
    let a2 = a.allocate().unwrap();
    let b1 = b.allocate().unwrap();
    assert_eq!(a1, b1);
    assert_ne!(a2, b1);
}

#[test]
fn to_two_args_destination_is_second_operand() {
    let regs = registers(1);
    let r1 = LValue::<USize64>::Reg(regs[0]);
    let op =
        BinaryOperator { a: RValue::Literal(2), b: RValue::Writeable(r1), dst: r1, value: value() };
    assert_eq!(op.to_two_args(), Some((r1, RValue::Literal(2))));
}

#[test]
fn to_two_args_destination_is_first_operand() {
    let regs = registers(2);
    let r1 = LValue::<USize64>::Reg(regs[0]);
    let r2 = LValue::<USize64>::Reg(regs[1]);
    let op = BinaryOperator {
        a: RValue::Writeable(r1),
        b: RValue::Writeable(r2),
        dst: r1,
        value: value(),
    };
    assert_eq!(op.to_two_args(), Some((r1, RValue::Writeable(r2))));
}

#[test]
fn to_two_args_both_operands_are_the_destination() {
    let regs = registers(1);
    let r1 = LValue::<USize64>::Reg(regs[0]);
    let op = BinaryOperator {
        a: RValue::Writeable(r1),
        b: RValue::Writeable(r1),
        dst: r1,
        value: value(),
    };
    assert_eq!(op.to_two_args(), Some((r1, RValue::Writeable(r1))));
}

#[test]
fn to_two_args_destination_is_neither_operand() {
    let regs = registers(3);
    let r1 = LValue::<USize64>::Reg(regs[0]);
    let r2 = LValue::<USize64>::Reg(regs[1]);
    let r3 = LValue::<USize64>::Reg(regs[2]);
    let op = BinaryOperator {
        a: RValue::Writeable(r1),
        b: RValue::Writeable(r2),
        dst: r3,
        value: value(),
    };
    assert_eq!(op.to_two_args(), None);
    let literals = BinaryOperator::<USize64> {
        a: RValue::Literal(1),
        b: RValue::Literal(2),
        dst: r3,
        value: value(),
    };
    assert_eq!(literals.to_two_args(), None);
}

#[test]
fn to_two_args_tells_register_from_memory() {
    let regs = registers(1);
    let reg = LValue::<USize64>::Reg(regs[0]);
    let deref = LValue::<USize64>::DerefReg(regs[0]);
    let op = BinaryOperator {
        a: RValue::Writeable(deref),
        b: RValue::Literal(1),
        dst: reg,
        value: value(),
    };
    assert_eq!(op.to_two_args(), None);
    let op = BinaryOperator {
        a: RValue::Writeable(deref),
        b: RValue::Literal(1),
        dst: deref,
        value: value(),
    };
    assert_eq!(op.to_two_args(), Some((deref, RValue::Literal(1))));
}

#[test]
fn to_two_args_compares_addresses() {
    let here = LValue::DerefAddr(USize32(0x0200_0000));
    let there = LValue::DerefAddr(USize32(0x0200_0004));
    let op = BinaryOperator {
        a: RValue::Writeable(there),
        b: RValue::Writeable(here),
        dst: here,
        value: value(),
    };
    assert_eq!(op.to_two_args(), Some((here, RValue::Writeable(there))));
    assert!(USize32(1).same_word(&USize32(1)));
    assert!(!USize64(1).same_word(&USize64(2)));
    assert!(here.same_location(&here));
    assert!(!here.same_location(&there));
}

fn function_of(len: usize) -> Function<'static, USize64> {
    let regs = registers(1);
    let dst = LValue::Reg(regs[0]);
    Function::new(
        "f",
        (0..len).map(|i| Instruction::Move { src: RValue::Literal(i), dst, value: value() }).collect(),
    )
}

#[test]
fn function_keeps_its_name_and_instructions() {
    let f = function_of(3);
    assert_eq!(f.name, "f");
    assert_eq!(f.instructions.len(), 3);
}

#[test]
fn offset_zero_is_the_instruction_itself() {
    let f = function_of(4);
    for i in 0..4 {
        assert_eq!(f.compute_ins_offset(i, 0), Ok(i));
    }
    assert_eq!(f.compute_ins_offset(4, 0), Err(()));
    assert_eq!(f.compute_ins_offset(usize::MAX, 0), Err(()));
}

#[test]
fn offsets_inside_the_function() {
    let f = function_of(4);
    assert_eq!(f.compute_ins_offset(0, 1), Ok(1));
    assert_eq!(f.compute_ins_offset(0, 3), Ok(3));
    assert_eq!(f.compute_ins_offset(3, -3), Ok(0));
    assert_eq!(f.compute_ins_offset(2, -1), Ok(1));
    // the jump may come from outside and land inside
    assert_eq!(f.compute_ins_offset(10, -7), Ok(3));
}

#[test]
fn offsets_outside_the_function() {
    let f = function_of(4);
    assert_eq!(f.compute_ins_offset(0, -1), Err(()));
    assert_eq!(f.compute_ins_offset(3, 1), Err(()));
    assert_eq!(f.compute_ins_offset(0, 4), Err(()));
    assert_eq!(f.compute_ins_offset(3, -4), Err(()));
    assert_eq!(f.compute_ins_offset(0, isize::MIN), Err(()));
    assert_eq!(f.compute_ins_offset(0, isize::MAX), Err(()));
    assert_eq!(f.compute_ins_offset(usize::MAX, isize::MAX), Err(()));
    assert_eq!(f.compute_ins_offset(usize::MAX, isize::MIN), Err(()));
}

#[test]
fn empty_function_has_no_target() {
    let f = function_of(0);
    assert_eq!(f.compute_ins_offset(0, 0), Err(()));
}

#[test]
fn unit_gives_functions_by_reference() {
    let unit = CompilationUnit::new(vec![function_of(1), function_of(2)], SourceIndex(0));
    assert_eq!(unit.len(), 2);
    assert_eq!(unit.get_function(FunctionRef(0)).instructions.len(), 1);
    assert_eq!(unit.get_function(FunctionRef(1)).instructions.len(), 2);
}
