//! Code generation: the high level, target independent instruction set and
//! the low level engines that lower it to machine code.
pub mod high;
pub mod low;
