//! A small compiler pipeline for a C-like systems language.
//!
//! The heart of the crate is [`generator`]: an architecture-independent
//! intermediate representation and its lowering into machine code. The
//! [`diagnostic`], [`lexer`] and [`preprocessor`] modules hold the front end.
pub mod diagnostic;
pub mod generator;
pub mod lexer;
pub mod preprocessor;
pub mod text;
