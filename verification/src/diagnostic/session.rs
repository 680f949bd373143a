//! The session of a compilation: its sources and its diagnostics.
use std::rc::Rc;

use vstd::prelude::*;

use super::emitter::Emitter;
use super::{
    DiagnosticBuilder, DiagnosticView, Handler, Level, SourceFile, SourceIndex, SourceManager,
    SourceName, Span,
};
use super::source_manager::line_table;
use vstd::utf8::encode_utf8;

verus! {

/// What one compilation works with: the source manager and the handler of
/// diagnostics.
pub struct Session<E: Emitter> {
    source_manager: SourceManager,
    handler: Handler<E>,
}

/// A diagnostic of the given level and message that points at nothing yet.
pub open spec fn plain(level: Level, message: Seq<char>) -> DiagnosticView {
    DiagnosticView {
        level,
        message,
        primary: None,
        spans: Seq::empty(),
        children: Seq::empty(),
    }
}

impl<E: Emitter> Session<E> {
    /// The sources of the session.
    pub closed spec fn sources(&self) -> SourceManager {
        self.source_manager
    }

    /// The handler of the session.
    pub closed spec fn diagnostics(&self) -> Handler<E> {
        self.handler
    }

    /// A session with the given sources and handler.
    pub fn new(source_manager: SourceManager, handler: Handler<E>) -> (r: Self)
        ensures
            r.sources() == source_manager,
            r.diagnostics() == handler,
    {
        Self { source_manager, handler }
    }

    /// Adds a source of the given name and text to the sources of the
    /// session: what loading a file comes to once the file was read.
    pub fn add_source(&mut self, filename: SourceName, src: String) -> (r: Rc<SourceFile>)
        ensures
            final(self).diagnostics() == old(self).diagnostics(),
            final(self).sources().files() == old(self).sources().files().push(r),
            r.index == SourceIndex(old(self).sources().files().len() as usize),
            r.name == filename,
            r.src == Some(src),
            r.lines@ == line_table(encode_utf8(src@)),
    {
        self.source_manager.new_source_file(filename, src)
    }

    /// The sources of the session.
    pub fn source_manager(&self) -> (r: &SourceManager)
        ensures
            *r == self.sources(),
    {
        &self.source_manager
    }

    /// The handler of the session.
    pub fn handler(&self) -> (r: &Handler<E>)
        ensures
            *r == self.diagnostics(),
    {
        &self.handler
    }

    /// The handler of the session, to work with it.
    pub fn handler_mut(&mut self) -> (r: &mut Handler<E>)
        ensures
            *r == old(self).diagnostics(),
            final(self).diagnostics() == *final(r),
            final(self).sources() == old(self).sources(),
    {
        &mut self.handler
    }

    /// Hands a diagnostic to the handler of the session, as
    /// `DiagnosticBuilder::emit` does.
    pub fn emit(&mut self, db: &mut DiagnosticBuilder)
        ensures
            final(self).sources() == old(self).sources(),
            final(db).diagnostic() == (DiagnosticView {
                level: Level::Cancelled,
                ..old(db).diagnostic()
            }),
            final(self).diagnostics().flags() == old(self).diagnostics().flags(),
            final(self).diagnostics().emitted() == if old(db).diagnostic().level == Level::Warning
                && !old(self).diagnostics().flags().emit_warnings {
                old(self).diagnostics().emitted()
            } else {
                old(self).diagnostics().emitted().push(old(db).diagnostic())
            },
    {
        db.emit(&mut self.handler);
    }

    /// Begins an error that points at a span.
    pub fn struct_span_error(&self, span: Span, message: &str) -> (r: DiagnosticBuilder)
        ensures
            r.diagnostic() == (DiagnosticView {
                primary: Some(span),
                ..plain(Level::Error, message@)
            }),
    {
        let mut db = DiagnosticBuilder::new(Level::Error, message);
        db.set_primary_span(span);
        db
    }

    /// Begins a warning that points at a span.
    pub fn struct_span_warn(&self, span: Span, message: &str) -> (r: DiagnosticBuilder)
        ensures
            r.diagnostic() == (DiagnosticView {
                primary: Some(span),
                ..plain(Level::Warning, message@)
            }),
    {
        let mut db = DiagnosticBuilder::new(Level::Warning, message);
        db.set_primary_span(span);
        db
    }

    /// Begins the report of a bug in the compiler.
    pub fn struct_bug(&self, message: &str) -> (r: DiagnosticBuilder)
        ensures
            r.diagnostic() == plain(Level::Bug, message@),
    {
        DiagnosticBuilder::new(Level::Bug, message)
    }

    /// Begins an error.
    pub fn struct_error(&self, message: &str) -> (r: DiagnosticBuilder)
        ensures
            r.diagnostic() == plain(Level::Error, message@),
    {
        DiagnosticBuilder::new(Level::Error, message)
    }

    /// Begins a warning.
    pub fn struct_warn(&self, message: &str) -> (r: DiagnosticBuilder)
        ensures
            r.diagnostic() == plain(Level::Warning, message@),
    {
        DiagnosticBuilder::new(Level::Warning, message)
    }

    /// Returns the text of the span.
    pub fn span_to_string(&self, span: Span) -> (r: Option<String>)
        ensures
            match self.sources().text_of(span) {
                Some(chars) => r matches Some(s) && s@ == chars,
                None => r.is_none(),
            },
    {
        self.source_manager.span_to_string(&span)
    }
}

} // verus!
