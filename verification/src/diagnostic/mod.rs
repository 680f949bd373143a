//! Diagnostics: the messages of the compiler, the source text that they
//! point into, and their rendering.
use std::rc::Rc;

use vstd::prelude::*;

use self::emitter::Emitter;
use self::styled::{Style, StyledString};

pub mod emitter;
mod handler;
pub mod session;
pub mod source_manager;
pub mod styled;

pub use handler::{Handler, HandlerFlags};
pub use source_manager::{SourceFile, SourceIndex, SourceManager, SourceName};

verus! {

/// A piece of source text: the bytes from `start` up to `end` of one source.
#[derive(Debug, Clone, Copy, PartialEq, Eq, Structural)]
pub struct Span {
    /// The index of the first byte.
    pub start: usize,
    /// The index behind the last byte.
    pub end: usize,
    /// The index of the source among the files of the source manager.
    pub source: usize,
}

impl Span {
    pub fn new(start: usize, end: usize, source: usize) -> (r: Self)
        ensures
            r == (Span { start, end, source }),
    {
        Self { start, end, source }
    }
}

/// A place in a source file: the line, the column, and how far tabs before
/// the column shift it when the line is shown.
#[derive(Debug, Clone, Copy, PartialEq, Eq, Structural)]
pub struct FileLoc {
    /// The line number, counted from 0.
    pub line: usize,
    /// The column number: bytes from the start of the line.
    pub col: u32,
    /// The columns by which the tabs before the place widen the line.
    pub col_offset: u32,
}

impl FileLoc {
    pub fn new(line: usize, col: u32, col_offset: u32) -> (r: Self)
        ensures
            r == (FileLoc { line, col, col_offset }),
    {
        Self { line, col, col_offset }
    }
}

/// A place in a source: the file, the line, and the column.
#[derive(Debug, Clone)]
pub struct Loc {
    /// The file that this location refers to.
    pub file: Rc<SourceFile>,
    /// The line number, counted from 0.
    pub line: usize,
    /// The column number.
    pub col: u32,
    /// The columns by which the tabs before the place widen the line.
    pub col_offset: u32,
}

impl Loc {
    pub fn new(file: Rc<SourceFile>, line: usize, col: u32, col_offset: u32) -> (r: Self)
        ensures
            r.file == file,
            r.line == line,
            r.col == col,
            r.col_offset == col_offset,
    {
        Self { file, line, col, col_offset }
    }
}

/// A note or a help text that belongs to a diagnostic.
#[derive(Debug)]
pub struct SubDiagnostic {
    pub level: Level,
    pub message: String,
    pub span: Option<Span>,
}

/// What a `SubDiagnostic` holds, with its text as characters.
pub struct SubDiagnosticView {
    pub level: Level,
    pub message: Seq<char>,
    pub span: Option<Span>,
}

impl View for SubDiagnostic {
    type V = SubDiagnosticView;

    open spec fn view(&self) -> SubDiagnosticView {
        SubDiagnosticView { level: self.level, message: self.message@, span: self.span }
    }
}

impl SubDiagnostic {
    pub fn new(level: Level, message: String, span: Option<Span>) -> (r: Self)
        ensures
            r.level == level,
            r.message == message,
            r.span == span,
    {
        Self { level, message, span }
    }
}

impl Clone for SubDiagnostic {
    fn clone(&self) -> (r: Self)
        ensures
            r@ == self@,
    {
        Self { level: self.level, message: self.message.clone(), span: self.span }
    }
}

/// A message of the compiler: its level and text, the spans of source that
/// it points at, and the notes that go with it.
#[derive(Debug)]
pub struct Diagnostic {
    pub level: Level,
    pub message: String,
    pub primary: Option<Span>,
    pub spans: Vec<(Span, String)>,
    pub children: Vec<SubDiagnostic>,
}

/// What a `Diagnostic` holds, with its texts as characters.
pub struct DiagnosticView {
    pub level: Level,
    pub message: Seq<char>,
    pub primary: Option<Span>,
    pub spans: Seq<(Span, Seq<char>)>,
    pub children: Seq<SubDiagnosticView>,
}

impl View for Diagnostic {
    type V = DiagnosticView;

    open spec fn view(&self) -> DiagnosticView {
        DiagnosticView {
            level: self.level,
            message: self.message@,
            primary: self.primary,
            spans: self.spans@.map_values(|p: (Span, String)| (p.0, p.1@)),
            children: self.children@.map_values(|c: SubDiagnostic| c@),
        }
    }
}

impl Clone for Diagnostic {
    fn clone(&self) -> (r: Self)
        ensures
            r@ == self@,
    {
        let mut spans: Vec<(Span, String)> = Vec::new();
        let mut i: usize = 0;
        while i < self.spans.len()
            invariant
                i <= self.spans@.len(),
                spans@.len() == i,
                forall|k: int|
                    0 <= k < i ==> spans@[k].0 == self.spans@[k].0 && spans@[k].1@
                        == self.spans@[k].1@,
            decreases self.spans@.len() - i,
        {
            spans.push((self.spans[i].0, self.spans[i].1.clone()));
            i += 1;
        }
        let mut children: Vec<SubDiagnostic> = Vec::new();
        let mut j: usize = 0;
        while j < self.children.len()
            invariant
                j <= self.children@.len(),
                children@.len() == j,
                forall|k: int| 0 <= k < j ==> children@[k]@ == self.children@[k]@,
            decreases self.children@.len() - j,
        {
            children.push(self.children[j].clone());
            j += 1;
        }
        let r = Self {
            level: self.level,
            message: self.message.clone(),
            primary: self.primary,
            spans,
            children,
        };
        assert(r@.spans =~= self@.spans);
        assert(r@.children =~= self@.children);
        r
    }
}

/// What an emitter has emitted after a handler took the reports in order:
/// each report is added to what was `emitted` before, but for the warnings
/// where warnings are not emitted.
pub open spec fn delivered(
    emitted: Seq<DiagnosticView>,
    emit_warnings: bool,
    reports: Seq<DiagnosticView>,
) -> Seq<DiagnosticView>
    decreases reports.len(),
{
    if reports.len() == 0 {
        emitted
    } else {
        let before = delivered(emitted, emit_warnings, reports.drop_last());
        if reports.last().level == Level::Warning && !emit_warnings {
            before
        } else {
            before.push(reports.last())
        }
    }
}

/// The report of a diagnostic that was made and let go without having been
/// emitted or cancelled.
pub open spec fn never_emitted() -> DiagnosticView {
    DiagnosticView {
        level: Level::Bug,
        message: "the following error was constructed but not emitted"@,
        primary: None,
        spans: Seq::empty(),
        children: Seq::empty(),
    }
}

/// A diagnostic in the making. It is emitted through a handler, or
/// cancelled.
pub struct DiagnosticBuilder {
    diagnostic: Diagnostic,
}

impl DiagnosticBuilder {
    /// The diagnostic as it stands.
    pub closed spec fn diagnostic(&self) -> DiagnosticView {
        self.diagnostic@
    }

    /// A builder for a diagnostic of the given level and message, which
    /// points at nothing yet.
    pub fn new(level: Level, message: &str) -> (r: Self)
        ensures
            r.diagnostic() == (DiagnosticView {
                level,
                message: message@,
                primary: None,
                spans: Seq::empty(),
                children: Seq::empty(),
            }),
    {
        let diagnostic = Diagnostic {
            level,
            message: String::from_str(message),
            primary: None,
            spans: Vec::new(),
            children: Vec::new(),
        };
        assert(diagnostic@.spans =~= Seq::empty());
        assert(diagnostic@.children =~= Seq::empty());
        Self { diagnostic }
    }

    /// Sets the span that the diagnostic points at in the first place.
    pub fn set_primary_span(&mut self, span: Span) -> (r: &mut Self)
        ensures
            r.diagnostic() == (DiagnosticView { primary: Some(span), ..old(self).diagnostic() }),
            *final(self) == *final(r),
    {
        self.diagnostic.primary = Some(span);
        self
    }

    /// Adds a span with a label to the diagnostic.
    pub fn span_label(&mut self, span: Span, label: &str) -> (r: &mut Self)
        ensures
            r.diagnostic() == (DiagnosticView {
                spans: old(self).diagnostic().spans.push((span, label@)),
                ..old(self).diagnostic()
            }),
            *final(self) == *final(r),
    {
        self.diagnostic.spans.push((span, String::from_str(label)));
        assert(self.diagnostic@.spans =~= old(self).diagnostic@.spans.push((span, label@)));
        self
    }

    fn child(&mut self, level: Level, message: &str, span: Option<Span>)
        ensures
            final(self).diagnostic() == (DiagnosticView {
                children: old(self).diagnostic().children.push(
                    SubDiagnosticView { level, message: message@, span },
                ),
                ..old(self).diagnostic()
            }),
    {
        let subd = SubDiagnostic::new(level, String::from_str(message), span);
        self.diagnostic.children.push(subd);
        assert(self.diagnostic@.children =~= old(self).diagnostic@.children.push(
            SubDiagnosticView { level, message: message@, span },
        ));
    }

    /// Adds a note message to the diagnostic.
    pub fn note(&mut self, message: &str) -> (r: &mut Self)
        ensures
            r.diagnostic() == (DiagnosticView {
                children: old(self).diagnostic().children.push(
                    SubDiagnosticView { level: Level::Note, message: message@, span: None },
                ),
                ..old(self).diagnostic()
            }),
            *final(self) == *final(r),
    {
        self.child(Level::Note, message, None);
        self
    }

    /// Adds a note message with a separate span to the diagnostic.
    pub fn span_note(&mut self, span: Span, message: &str) -> (r: &mut Self)
        ensures
            r.diagnostic() == (DiagnosticView {
                children: old(self).diagnostic().children.push(
                    SubDiagnosticView { level: Level::Note, message: message@, span: Some(span) },
                ),
                ..old(self).diagnostic()
            }),
            *final(self) == *final(r),
    {
        self.child(Level::Note, message, Some(span));
        self
    }

    /// Adds a help message to the diagnostic.
    pub fn help(&mut self, message: &str) -> (r: &mut Self)
        ensures
            r.diagnostic() == (DiagnosticView {
                children: old(self).diagnostic().children.push(
                    SubDiagnosticView { level: Level::Help, message: message@, span: None },
                ),
                ..old(self).diagnostic()
            }),
            *final(self) == *final(r),
    {
        self.child(Level::Help, message, None);
        self
    }

    /// Adds a help message with a separate span to the diagnostic.
    pub fn span_help(&mut self, span: Span, message: &str) -> (r: &mut Self)
        ensures
            r.diagnostic() == (DiagnosticView {
                children: old(self).diagnostic().children.push(
                    SubDiagnosticView { level: Level::Help, message: message@, span: Some(span) },
                ),
                ..old(self).diagnostic()
            }),
            *final(self) == *final(r),
    {
        self.child(Level::Help, message, Some(span));
        self
    }

    /// Hands the diagnostic to the handler, as a warning if it is one and as
    /// an error otherwise, and marks this builder as cancelled.
    pub fn emit<E: Emitter>(&mut self, handler: &mut Handler<E>)
        ensures
            final(self).diagnostic() == (DiagnosticView {
                level: Level::Cancelled,
                ..old(self).diagnostic()
            }),
            final(handler).flags() == old(handler).flags(),
            final(handler).emitted() == if old(self).diagnostic().level == Level::Warning && !old(
                handler,
            ).flags().emit_warnings {
                old(handler).emitted()
            } else {
                old(handler).emitted().push(old(self).diagnostic())
            },
    {
        if self.diagnostic.level == Level::Warning {
            handler.warn(self.diagnostic.clone());
        } else {
            handler.error(self.diagnostic.clone());
        }
        self.cancel();
    }

    /// Ends the life of a builder. One that was emitted or cancelled is let
    /// go. A builder that is let go before that is a mistake of the
    /// compiler: the handler gets the report of that bug, and then the
    /// diagnostic itself, so that it is not lost.
    pub fn finish<E: Emitter>(self, handler: &mut Handler<E>)
        ensures
            final(handler).flags() == old(handler).flags(),
            final(handler).emitted() == if self.diagnostic().level == Level::Cancelled {
                old(handler).emitted()
            } else {
                delivered(
                    old(handler).emitted(),
                    old(handler).flags().emit_warnings,
                    seq![never_emitted(), self.diagnostic()],
                )
            },
    {
        let mut this = self;
        if !this.cancelled() {
            let mut db = DiagnosticBuilder::new(
                Level::Bug,
                "the following error was constructed but not emitted",
            );
            db.emit(handler);
            this.emit(handler);
            proof {
                let reports = seq![never_emitted(), self.diagnostic()];
                assert(reports.drop_last() =~= seq![never_emitted()]);
                assert(reports.drop_last().drop_last() =~= Seq::<DiagnosticView>::empty());
                reveal_with_fuel(delivered, 3);
            }
        }
    }

    /// Marks this builder as cancelled: there is nothing left to emit.
    pub fn cancel(&mut self)
        ensures
            final(self).diagnostic() == (DiagnosticView {
                level: Level::Cancelled,
                ..old(self).diagnostic()
            }),
    {
        self.diagnostic.level = Level::Cancelled;
    }

    /// Whether this builder was cancelled, by `cancel` or by `emit`.
    pub fn cancelled(&self) -> (r: bool)
        ensures
            r == (self.diagnostic().level == Level::Cancelled),
    {
        self.diagnostic.level == Level::Cancelled
    }
}

/// The level of a diagnostic.
#[derive(Debug, Copy, Clone, PartialEq, Eq, Hash, Structural)]
pub enum Level {
    /// An internal bug in the compiler.
    Bug,
    /// An error in what is compiled.
    Error,
    /// A warning.
    Warning,
    /// A helpful note.
    Note,
    /// A suggestion.
    Help,
    /// The level of a diagnostic that was cancelled.
    Cancelled,
}

impl Level {
    /// The text by which the level is shown.
    pub open spec fn name(self) -> Seq<char> {
        match self {
            Level::Bug => "internal compiler error"@,
            Level::Error => "error"@,
            Level::Warning => "warning"@,
            Level::Note => "note"@,
            Level::Help => "help"@,
            Level::Cancelled => "cancelled"@,
        }
    }

    /// Returns the text representation of the diagnostic level.
    pub fn to_str(&self) -> (r: &'static str)
        ensures
            r@ == self.name(),
    {
        match self {
            Level::Bug => "internal compiler error",
            Level::Error => "error",
            Level::Warning => "warning",
            Level::Note => "note",
            Level::Help => "help",
            Level::Cancelled => "cancelled",
        }
    }

    /// Whether a diagnostic of this level ends the compilation: a bug and an
    /// error do, the others do not.
    pub fn is_fatal(&self) -> (r: bool)
        ensures
            r == (*self == Level::Bug || *self == Level::Error),
    {
        match self {
            Level::Bug | Level::Error => true,
            Level::Note | Level::Help | Level::Warning | Level::Cancelled => false,
        }
    }

    /// The text of the level, in the style of the level.
    pub fn as_styled_string(&self) -> (r: StyledString)
        ensures
            r.text@ == self.name(),
            r.style == Style::Level(*self),
    {
        let string = self.to_str();
        let style = Style::Level(*self);
        StyledString::new(String::from_str(string), style)
    }
}

} // verus!
