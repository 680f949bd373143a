//! High level assembly.
//!
//! High level instructions are cross platform and loosely modelled on ARM and
//! x86. As in other intermediate representations there is an unlimited supply
//! of virtual registers, all of them scoped to the function they occur in.
use vstd::prelude::*;

use crate::diagnostic::SourceIndex;

verus! {

/// The largest number of registers one allocator hands out.
pub const MAX_REGISTERS: u16 = 65535;

/// A virtual register. Its number is never zero and means something only
/// inside one function.
#[derive(Copy, Clone, Debug, PartialEq, Eq, Hash, Structural)]
pub struct Register(u16);

impl Register {
    #[verifier::type_invariant]
    spec fn nonzero(self) -> bool {
        self.0 >= 1
    }

    /// The number of the register.
    pub closed spec fn id(self) -> int {
        self.0 as int
    }

    /// Two registers with one number are one register.
    pub proof fn lemma_id_determines(self, other: Register)
        ensures
            self.id() == other.id() <==> self == other,
    {
    }

    /// The number of the register, which is at least 1.
    pub fn number(&self) -> (n: u16)
        ensures
            n == self.id(),
            n >= 1,
    {
        proof {
            use_type_invariant(self);
        }
        self.0
    }
}

/// Hands out the registers of one function: 1, 2, 3, and so on.
pub struct RegisterAllocator(u16);

impl RegisterAllocator {
    /// How many registers have been handed out so far.
    pub closed spec fn allocated(&self) -> nat {
        self.0 as nat
    }

    /// A fresh allocator, which has handed out nothing.
    pub fn new() -> (r: Self)
        ensures
            r.allocated() == 0,
    {
        Self(0)
    }

    /// What the next call of `allocate` answers.
    pub closed spec fn next_register(&self) -> Option<Register> {
        if self.0 < MAX_REGISTERS {
            Some(Register((self.0 + 1) as u16))
        } else {
            None
        }
    }

    /// The allocator after the next call of `allocate`.
    pub closed spec fn step(&self) -> Self {
        if self.0 < MAX_REGISTERS {
            Self((self.0 + 1) as u16)
        } else {
            *self
        }
    }

    /// The allocator after `n` more calls of `allocate`.
    pub open spec fn after(&self, n: nat) -> Self
        decreases n,
    {
        if n == 0 {
            *self
        } else {
            self.after((n - 1) as nat).step()
        }
    }

    /// Allocates the next unique register. Once `MAX_REGISTERS` registers
    /// have been handed out there is none left: the allocator then answers
    /// `None` and stays as it is.
    pub fn allocate(&mut self) -> (r: Option<Register>)
        ensures
            r == old(self).next_register(),
            *final(self) == old(self).step(),
            old(self).allocated() < MAX_REGISTERS ==> r.is_some() && r.unwrap().id() == old(
                self,
            ).allocated() + 1 && final(self).allocated() == old(self).allocated() + 1,
            old(self).allocated() >= MAX_REGISTERS ==> r.is_none() && *final(self) == *old(self),
    {
        match self.0.checked_add(1) {
            Some(next) => {
                self.0 = next;
                Some(Register(next))
            },
            None => None,
        }
    }

    /// The next register has the number that follows the number of registers
    /// handed out. There is none once `MAX_REGISTERS` were handed out.
    pub proof fn lemma_next_register(&self)
        ensures
            self.allocated() <= MAX_REGISTERS,
            match self.next_register() {
                Some(r) => self.allocated() < MAX_REGISTERS && r.id() == self.allocated() + 1
                    && self.step().allocated() == self.allocated() + 1,
                None => self.allocated() == MAX_REGISTERS && self.step() == *self,
            },
    {
    }

    /// After `n` calls a fresh allocator has handed out `n` registers, or
    /// all of them.
    pub proof fn lemma_allocated_after(&self, n: nat)
        requires
            self.allocated() == 0,
        ensures
            self.after(n).allocated() == if n < MAX_REGISTERS {
                n
            } else {
                MAX_REGISTERS as nat
            },
        decreases n,
    {
        if n > 0 {
            self.lemma_allocated_after((n - 1) as nat);
        }
    }

    /// The registers that one allocator hands out are never zero, and a later
    /// one has a larger number than an earlier one, so that no two are the
    /// same. The call that follows the last of the `MAX_REGISTERS` registers
    /// fails, and so does every call after it.
    pub proof fn lemma_allocation_order(&self, i: nat, j: nat)
        requires
            self.allocated() == 0,
            i < j,
        ensures
            j < MAX_REGISTERS ==> {
                &&& self.after(i).next_register() matches Some(first)
                &&& self.after(j).next_register() matches Some(second)
                &&& 0 < first.id() < second.id()
                &&& first != second
            },
            j >= MAX_REGISTERS ==> self.after(j).next_register().is_none(),
    {
        self.lemma_allocated_after(i);
        self.lemma_allocated_after(j);
    }
}

/// The size of an integer: 1, 2, 4 or 8 bytes.
#[derive(Copy, Clone, Debug, PartialEq, Eq, Structural)]
pub enum IntegerSize {
    B8,
    B16,
    B32,
    B64,
}

/// The possible sizes of a floating point value.
#[derive(Copy, Clone, Debug, PartialEq, Eq, Structural)]
pub enum FloatingSize {
    F32,
    F64,
}

/// A machine word: the type of a fixed address. A compilation unit is built
/// over one word type, and a backend accepts only units of its own width.
pub trait USizeBase: Copy + Clone + Eq {
    /// Whether two words are the same address.
    fn same_word(&self, other: &Self) -> (r: bool)
        ensures
            r == (*self == *other),
    ;
}

/// A 32 bit value.
#[derive(Copy, Clone, Debug, PartialEq, Eq, Structural)]
pub struct USize32(pub u32);

/// A 64 bit value.
#[derive(Copy, Clone, Debug, PartialEq, Eq, Structural)]
pub struct USize64(pub u64);

impl USizeBase for USize32 {
    fn same_word(&self, other: &Self) -> (r: bool) {
        self.0 == other.0
    }
}

impl USizeBase for USize64 {
    fn same_word(&self, other: &Self) -> (r: bool) {
        self.0 == other.0
    }
}

/// How the bits of a storage slot are to be read.
#[derive(Copy, Clone, Debug, PartialEq, Eq, Structural)]
pub enum PrimitiveValue {
    Signed(IntegerSize),
    Unsigned(IntegerSize),
    Floating(FloatingSize),
    Pointer,
}

/// A value that has a writable location.
#[derive(Copy, Clone, Debug, PartialEq, Eq)]
pub enum LValue<USize: USizeBase> {
    /// The value is stored in the register.
    Reg(Register),
    /// The value is in memory, at the address that the register holds.
    DerefReg(Register),
    /// The value is in memory, at a fixed address.
    DerefAddr(USize),
}

/// A value with a readable location: a writable location or a literal.
#[derive(Copy, Clone, Debug, PartialEq, Eq)]
pub enum RValue<USize: USizeBase> {
    Writeable(LValue<USize>),
    Literal(usize),
}

/// When a conditional jump is taken.
#[derive(Copy, Clone, Debug, PartialEq, Eq, Structural)]
pub enum JumpCondition {
    Zero,
    NonZero,
}

/// The operands of `dst = a <operation> b`.
#[derive(Copy, Clone, Debug, PartialEq, Eq)]
pub struct BinaryOperator<USize: USizeBase> {
    pub a: RValue<USize>,
    pub b: RValue<USize>,
    pub dst: LValue<USize>,
    pub value: PrimitiveValue,
}

/// A reference to a function: its index inside a `CompilationUnit`.
#[derive(Copy, Clone, Debug, PartialEq, Eq, Hash, Structural)]
pub struct FunctionRef(pub usize);

/// The high level instructions, with their operands and destination.
///
/// The arithmetic instructions work on operands of one type, which are found
/// in registers, at a fixed address, or behind a pointer held in a register.
#[derive(Copy, Clone, Debug, PartialEq, Eq)]
#[allow(inconsistent_fields)]
pub enum Instruction<USize: USizeBase> {
    /// Moves a value from one place to another.
    Move { src: RValue<USize>, dst: LValue<USize>, value: PrimitiveValue },
    /// Loads the nth parameter of the function into the register.
    LoadParameter { n: u8, dst: Register },
    /// dst = a + b
    Add(BinaryOperator<USize>),
    /// dst = a - b
    Subtract(BinaryOperator<USize>),
    /// dst = a * b
    Multiply(BinaryOperator<USize>),
    /// dst = a / b
    Divide(BinaryOperator<USize>),
    /// Calls a function and stores what it returns in `return_value`.
    Call { function: FunctionRef, return_value: Option<LValue<USize>> },
    /// Returns the value.
    Return { value: RValue<USize> },
    /// Jumps to another instruction of the function. The offset counts
    /// instructions from this one: 0 is this instruction, 1 the next, -10
    /// the one ten before.
    Jump { offset: isize },
    /// Jumps like `Jump` if `value` compares with zero as `condition` says.
    ConditionalJump { offset: isize, value: LValue<USize>, condition: JumpCondition },
}

/// A function in high level assembly.
#[derive(Clone, Debug)]
pub struct Function<'name, USize: USizeBase> {
    pub name: &'name str,
    pub instructions: Vec<Instruction<USize>>,
}

/// The functions that are compiled together, in order. A function is known
/// to the others by its index alone.
#[derive(Clone, Debug)]
pub struct CompilationUnit<'name, USize: USizeBase> {
    functions: Vec<Function<'name, USize>>,
    source: SourceIndex,
}

impl<USize: USizeBase> LValue<USize> {
    /// Whether two locations are the same storage.
    pub fn same_location(&self, other: &Self) -> (r: bool)
        ensures
            r == (*self == *other),
    {
        match (self, other) {
            (LValue::Reg(x), LValue::Reg(y)) => *x == *y,
            (LValue::DerefReg(x), LValue::DerefReg(y)) => *x == *y,
            (LValue::DerefAddr(x), LValue::DerefAddr(y)) => x.same_word(y),
            _ => false,
        }
    }
}

impl<USize: USizeBase> BinaryOperator<USize> {
    /// What `to_two_args` answers: the destination and the other operand,
    /// where the destination is also the first or the second operand.
    pub open spec fn two_args(self) -> Option<(LValue<USize>, RValue<USize>)> {
        if self.a == RValue::Writeable(self.dst) {
            Some((self.dst, self.b))
        } else if self.b == RValue::Writeable(self.dst) {
            Some((self.dst, self.a))
        } else {
            None
        }
    }

    /// Converts `dst = a <operation> b` to `dst <operation>= other`.
    ///
    /// That is possible only where `dst` is the location of `a` or of `b`.
    /// The destination comes first in the answer: for `a: Literal(5)`,
    /// `b: r2`, `dst: r2` it is `(r2, Literal(5))`.
    pub fn to_two_args(self) -> (r: Option<(LValue<USize>, RValue<USize>)>)
        ensures
            r == self.two_args(),
    {
        if let RValue::Writeable(a) = self.a {
            if self.dst.same_location(&a) {
                return Some((a, self.b));
            }
        }
        if let RValue::Writeable(b) = self.b {
            if self.dst.same_location(&b) {
                return Some((b, self.a));
            }
        }
        None
    }
}

impl<'name, USize: USizeBase> Function<'name, USize> {
    /// A function of the given name and instructions.
    pub fn new(name: &'name str, instructions: Vec<Instruction<USize>>) -> (r: Self)
        ensures
            r.name == name,
            r.instructions == instructions,
    {
        Self { name, instructions }
    }

    /// Where a jump of `offset` instructions from the instruction at `index`
    /// lands, if that is an instruction of this function.
    pub open spec fn jump_target(&self, index: usize, offset: isize) -> Option<usize> {
        if 0 <= index + offset < self.instructions.len() {
            Some((index + offset) as usize)
        } else {
            None
        }
    }

    /// Resolves a relative jump to the index of the instruction it lands on.
    /// Fails where that index is negative or beyond the last instruction.
    pub fn compute_ins_offset(&self, index: usize, offset: isize) -> (r: Result<usize, ()>)
        ensures
            r == match self.jump_target(index, offset) {
                Some(target) => Ok::<usize, ()>(target),
                None => Err::<usize, ()>(()),
            },
    {
        let len: usize = self.instructions.len();
        if offset >= 0 {
            let forward: usize = offset as usize;
            if index < len && forward < len - index {
                Ok(index + forward)
            } else {
                Err(())
            }
        } else {
            // -(offset + 1) fits where -offset may not
            let backward: usize = (-(offset + 1)) as usize;
            if backward < index && index - backward - 1 < len {
                Ok(index - backward - 1)
            } else {
                Err(())
            }
        }
    }
}

impl<'name, USize: USizeBase> CompilationUnit<'name, USize> {
    /// The functions of the unit, in order.
    pub closed spec fn functions(&self) -> Seq<Function<'name, USize>> {
        self.functions@
    }

    /// The source that the unit was compiled from.
    pub closed spec fn source(&self) -> SourceIndex {
        self.source
    }

    /// A unit of the given functions.
    pub fn new(functions: Vec<Function<'name, USize>>, source: SourceIndex) -> (r: Self)
        ensures
            r.functions() == functions@,
            r.source() == source,
    {
        Self { functions, source }
    }

    /// How many functions the unit holds.
    pub fn len(&self) -> (n: usize)
        ensures
            n == self.functions().len(),
    {
        self.functions.len()
    }

    /// The function that `function` refers to.
    pub fn get_function(&self, function: FunctionRef) -> (r: &Function<'name, USize>)
        requires
            function.0 < self.functions().len(),
        ensures
            *r == self.functions()[function.0 as int],
    {
        &self.functions[function.0]
    }
}

} // verus!
