//! The preprocessor, by the phases of translation of the C standard.
pub mod phase2;
