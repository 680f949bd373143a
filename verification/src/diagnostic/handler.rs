//! The handler: what decides whether a diagnostic is emitted.
use vstd::prelude::*;

use super::emitter::Emitter;
use super::{Diagnostic, DiagnosticView};

verus! {

/// How a handler is to behave.
#[derive(Debug, Copy, Clone, PartialEq, Eq, Structural)]
pub struct HandlerFlags {
    /// Whether the output is colored. This should be off when the output
    /// goes into a file.
    pub colored_output: bool,
    /// Whether warnings are emitted.
    pub emit_warnings: bool,
    /// Set when the compiler is used as a library.
    pub quiet: bool,
}

/// A `Handler` takes the diagnostics of a compilation and passes them on to
/// its emitter.
pub struct Handler<E: Emitter> {
    flags: HandlerFlags,
    emitter: E,
    /// What was passed to the emitter.
    passed: Ghost<Seq<DiagnosticView>>,
}

impl<E: Emitter> Handler<E> {
    /// The flags that the handler was made with.
    pub closed spec fn flags(&self) -> HandlerFlags {
        self.flags
    }

    /// The diagnostics that the handler has passed to its emitter, in order.
    pub closed spec fn emitted(&self) -> Seq<DiagnosticView> {
        self.passed@
    }

    /// The emitter of the handler.
    pub closed spec fn emitter_of(&self) -> E {
        self.emitter
    }

    /// Creates a new handler with the given flags and emitter. It has
    /// passed nothing to the emitter yet.
    pub fn with_emitter(flags: HandlerFlags, emitter: E) -> (r: Self)
        ensures
            r.flags() == flags,
            r.emitter_of() == emitter,
            r.emitted() == Seq::<DiagnosticView>::empty(),
    {
        Self { flags, emitter, passed: Ghost(Seq::empty()) }
    }

    /// Takes a warning: it is emitted if the flags say that warnings are.
    pub fn warn(&mut self, warning: Diagnostic)
        ensures
            final(self).flags() == old(self).flags(),
            final(self).emitted() == if old(self).flags().emit_warnings {
                old(self).emitted().push(warning@)
            } else {
                old(self).emitted()
            },
    {
        if self.flags.emit_warnings {
            self.emitter.emit_diagnostic(&warning);
            self.passed = Ghost(self.passed@.push(warning@));
        }
    }

    /// Takes an error: it is emitted.
    pub fn error(&mut self, error: Diagnostic)
        ensures
            final(self).flags() == old(self).flags(),
            final(self).emitted() == old(self).emitted().push(error@),
    {
        self.emitter.emit_diagnostic(&error);
        self.passed = Ghost(self.passed@.push(error@));
    }

    /// The emitter of the handler.
    pub fn emitter(&self) -> (r: &E)
        ensures
            *r == self.emitter_of(),
    {
        &self.emitter
    }

    /// The emitter of the handler, to work with it. What the handler has
    /// passed to it stays on record.
    pub fn emitter_mut(&mut self) -> (r: &mut E)
        ensures
            *r == old(self).emitter_of(),
            final(self).emitter_of() == *final(r),
            final(self).flags() == old(self).flags(),
            final(self).emitted() == old(self).emitted(),
    {
        &mut self.emitter
    }

    /// The flags that the handler was made with.
    pub fn get_flags(&self) -> (r: HandlerFlags)
        ensures
            r == self.flags(),
    {
        self.flags
    }
}

} // verus!
