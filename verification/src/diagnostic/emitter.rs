//! Emitters: where diagnostics go, and how they look as text.
//!
//! A diagnostic is rendered in two steps. First each span that it points at
//! is resolved into a snippet: the file, the place and the line of source.
//! Then the diagnostic and its snippets are laid out as styled text. Writing
//! that text to a terminal is left to the caller.
use std::path::PathBuf;

use vstd::prelude::*;

use super::styled::{Style, StyledBuffer, StyledString, StyledText};
use super::{
    Diagnostic, DiagnosticView, FileLoc, Level, SourceFile, SourceIndex, SourceManager, SourceName,
    Span, SubDiagnosticView,
};
use crate::text::{decimal, decimal_width, push_decimal, push_repeated, repeated, spaces};

verus! {

/// A type that can emit diagnostics. What emitting means is up to the type:
/// to write to a terminal, to a file, or to keep the diagnostic for later.
pub trait Emitter {
    /// Emits a diagnostic.
    fn emit_diagnostic(&mut self, diag: &Diagnostic);
}

/// A source line with the annotations that diagnostics put under it.
#[derive(Debug)]
pub struct Line {
    /// The line number of this source line, counted from 1.
    pub line: usize,
    /// Annotations as part of diagnostic messages.
    pub annotations: Vec<Annotation>,
}

/// A mark under a part of a source line.
#[derive(Debug)]
pub struct Annotation {
    /// Start column, counted from 0 in characters.
    pub start_col: usize,
    /// End column within the line.
    pub end_col: usize,
    /// Optional label to display next to the annotation.
    pub label: Option<String>,
}

/// `pathdiff::diff_paths`: the path as seen from the directory `base`, as
/// text. There is none where the path is relative and the base is absolute,
/// where the base goes up by `..` at a place where the two part, or where
/// the result is no Unicode text. What it is depends on the platform's
/// notion of a path, so nothing is said of it.
#[verifier::external_body]
fn relative_path(path: &PathBuf, base: &PathBuf) -> Option<String> {
    pathdiff::diff_paths(path, base)?.to_str().map(String::from)
}

/// What is shown of the place that a span points at.
#[derive(Debug)]
pub struct Snippet {
    /// The file, as it is named in the output.
    pub path: String,
    /// Where in the file the span begins.
    pub loc: FileLoc,
    /// The line of source in which the span begins, with tabs expanded.
    pub line: String,
    /// How many bytes long the span is.
    pub length: usize,
}

/// What a `Snippet` holds, with its texts as characters.
pub struct SnippetView {
    pub path: Seq<char>,
    pub loc: FileLoc,
    pub line: Seq<char>,
    pub length: usize,
}

impl View for Snippet {
    type V = SnippetView;

    open spec fn view(&self) -> SnippetView {
        SnippetView { path: self.path@, loc: self.loc, line: self.line@, length: self.length }
    }
}

/// The snippets of a diagnostic: one for its primary span if it has one, one
/// for each labelled span, and one for each child that has a span.
#[derive(Debug)]
pub struct Resolved {
    pub primary: Option<Snippet>,
    pub spans: Vec<Snippet>,
    pub children: Vec<Option<Snippet>>,
}

/// What a `Resolved` holds, with its texts as characters.
pub struct ResolvedView {
    pub primary: Option<SnippetView>,
    pub spans: Seq<SnippetView>,
    pub children: Seq<Option<SnippetView>>,
}

/// The view of a snippet that may not be there.
pub open spec fn snippet_view(s: Option<Snippet>) -> Option<SnippetView> {
    match s {
        Some(s) => Some(s@),
        None => None,
    }
}

impl View for Resolved {
    type V = ResolvedView;

    open spec fn view(&self) -> ResolvedView {
        ResolvedView {
            primary: snippet_view(self.primary),
            spans: self.spans@.map_values(|s: Snippet| s@),
            children: self.children@.map_values(|s: Option<Snippet>| snippet_view(s)),
        }
    }
}

/// Whether the file has what a snippet for the span needs: a real path, a
/// line that the span begins in, and an end that is not before the start.
pub open spec fn can_show(file: SourceFile, span: Span) -> bool {
    &&& file.name is Real
    &&& file.location(span).is_some()
    &&& file.line_text(span).is_some()
    &&& span.start <= span.end
}

/// Whether the snippet shows the span in the file. Its path is not looked
/// at.
pub open spec fn shows(file: SourceFile, span: Span, snippet: SnippetView) -> bool {
    &&& can_show(file, span)
    &&& file.location(span) == Some(snippet.loc)
    &&& file.line_text(span) == Some(snippet.line)
    &&& snippet.length == span.end - span.start
}

/// Whether the snippet shows the span in the file of the manager that the
/// span points into.
pub open spec fn shown_by(sm: SourceManager, span: Span, snippet: SnippetView) -> bool {
    sm.file_of(span) matches Some(file) && shows(*file, span, snippet)
}

/// Whether the manager has what a snippet for the span needs.
pub open spec fn showable(sm: SourceManager, span: Span) -> bool {
    sm.file_of(span) matches Some(file) && can_show(*file, span)
}

/// Whether each span of the diagnostic can be shown.
pub open spec fn resolvable(sm: SourceManager, diag: DiagnosticView) -> bool {
    &&& diag.primary matches Some(span) ==> showable(sm, span)
    &&& forall|i: int| 0 <= i < diag.spans.len() ==> showable(sm, (#[trigger] diag.spans[i]).0)
    &&& forall|j: int|
        0 <= j < diag.children.len() ==> ((#[trigger] diag.children[j]).span matches Some(span)
            ==> showable(sm, span))
}

/// Whether the diagnostic points at no source at all: it has no primary
/// span and no labelled span, and none of its children has a span.
pub open spec fn spanless(diag: DiagnosticView) -> bool {
    &&& diag.primary.is_none()
    &&& diag.spans.len() == 0
    &&& forall|j: int| 0 <= j < diag.children.len() ==> (#[trigger] diag.children[j]).span.is_none()
}

/// The snippets of a diagnostic that points at no source: none for the
/// diagnostic itself, and none for each of its children.
pub open spec fn no_snippets(diag: DiagnosticView) -> ResolvedView {
    ResolvedView {
        primary: None,
        spans: Seq::empty(),
        children: Seq::new(diag.children.len(), |j: int| None::<SnippetView>),
    }
}

/// Whether the snippets are those of the diagnostic, span by span.
pub open spec fn resolves(sm: SourceManager, diag: DiagnosticView, res: ResolvedView) -> bool {
    &&& match diag.primary {
        Some(span) => res.primary matches Some(s) && shown_by(sm, span, s),
        None => res.primary.is_none(),
    }
    &&& res.spans.len() == diag.spans.len()
    &&& forall|i: int|
        0 <= i < diag.spans.len() ==> shown_by(sm, (#[trigger] diag.spans[i]).0, res.spans[i])
    &&& res.children.len() == diag.children.len()
    &&& forall|j: int|
        0 <= j < diag.children.len() ==> match (#[trigger] diag.children[j]).span {
            Some(span) => res.children[j] matches Some(s) && shown_by(sm, span, s),
            None => res.children[j].is_none(),
        }
}

/// Whether there is a snippet wherever the diagnostic has a span, and
/// nowhere else.
pub open spec fn fits(diag: DiagnosticView, res: ResolvedView) -> bool {
    &&& diag.primary.is_some() == res.primary.is_some()
    &&& res.spans.len() == diag.spans.len()
    &&& res.children.len() == diag.children.len()
    &&& forall|j: int|
        0 <= j < diag.children.len() ==> (#[trigger] diag.children[j]).span.is_some()
            == res.children[j].is_some()
}

/// A diagnostic that has its snippets can be resolved, and they fit it.
pub proof fn lemma_resolves(sm: SourceManager, diag: DiagnosticView, res: ResolvedView)
    requires
        resolves(sm, diag, res),
    ensures
        resolvable(sm, diag),
        fits(diag, res),
{
}

/// The two parts that say where a snippet is: an arrow, and the file with
/// the line and the column, both counted from 1.
pub open spec fn location_header(snippet: SnippetView) -> Seq<StyledText> {
    seq![
        StyledText { text: "--> "@, style: Style::LineAndColumn },
        StyledText {
            text: snippet.path + ":"@ + decimal((snippet.loc.line + 1) as nat) + ":"@ + decimal(
                (snippet.loc.col + 1) as nat,
            ) + "\n"@,
            style: Style::NoStyle,
        },
    ]
}

/// An empty line of source: the margin and the rule.
pub open spec fn vertical_bar(width: nat) -> StyledText {
    StyledText { text: spaces(width) + " | \n"@, style: Style::LineAndColumn }
}

/// The marks under a line of source: a `^` under each byte of the span,
/// moved to the right by the column of the span and the offset of the tabs
/// before it, and the label behind them if there is one.
pub open spec fn annotation(snippet: SnippetView, label: Option<Seq<char>>) -> Seq<char> {
    let marks = spaces(snippet.loc.col.wrapping_add(snippet.loc.col_offset) as nat) + repeated(
        '^',
        snippet.length as nat,
    );
    match label {
        Some(label) => marks + " "@ + label + "\n"@,
        None => marks + "\n"@,
    }
}

/// A snippet as it is shown: where it is, if this is the first snippet under
/// its header; then the line of source with its number, as it is counted
/// from 0, and under it the marks in the style of the level; and an empty
/// line before and behind. The margin is `width` columns wide.
pub open spec fn line_parts(
    snippet: SnippetView,
    label: Option<Seq<char>>,
    is_first: bool,
    width: nat,
    level: Level,
) -> Seq<StyledText> {
    let head = if is_first {
        location_header(snippet)
    } else {
        seq![]
    };
    head + seq![
        vertical_bar(width),
        StyledText {
            text: decimal(snippet.loc.line as nat) + " | "@,
            style: Style::LineAndColumn,
        },
        StyledText { text: snippet.line + "\n"@, style: Style::NoStyle },
        StyledText { text: spaces(width) + " | "@, style: Style::LineAndColumn },
        StyledText { text: annotation(snippet, label), style: Style::Level(level) },
        vertical_bar(width),
    ]
}

/// The larger of two numbers.
pub open spec fn larger(a: nat, b: nat) -> nat {
    if a >= b {
        a
    } else {
        b
    }
}

/// How many digits the line number of the snippet has.
pub open spec fn number_width(snippet: SnippetView) -> nat {
    decimal(snippet.loc.line as nat).len()
}

/// The most digits that a line number of the first `n` snippets has.
pub open spec fn widest(spans: Seq<SnippetView>, n: nat) -> nat
    decreases n,
{
    if n == 0 {
        0
    } else {
        larger(widest(spans, (n - 1) as nat), number_width(spans[n - 1]))
    }
}

/// How wide the margin of a diagnostic is: as wide as the longest line
/// number among its primary and its labelled spans.
pub open spec fn margin(res: ResolvedView) -> nat {
    larger(
        match res.primary {
            Some(s) => number_width(s),
            None => 0,
        },
        widest(res.spans, res.spans.len()),
    )
}

/// The header of a diagnostic or of a child with a span: the level in its
/// style, and the message.
pub open spec fn header_parts(level: Level, message: Seq<char>) -> Seq<StyledText> {
    seq![
        StyledText { text: level.name(), style: Style::Level(level) },
        StyledText { text: ": "@ + message + "\n"@, style: Style::MainHeaderMsg },
    ]
}

/// The first `n` labelled spans as they are shown. Only the first snippet
/// of the diagnostic says where it is.
pub open spec fn spans_parts(diag: DiagnosticView, res: ResolvedView, n: nat) -> Seq<StyledText>
    decreases n,
{
    if n == 0 {
        seq![]
    } else {
        spans_parts(diag, res, (n - 1) as nat) + line_parts(
            res.spans[n - 1],
            Some(diag.spans[n - 1].1),
            diag.primary.is_none() && n == 1,
            margin(res),
            diag.level,
        )
    }
}

/// A child as it is shown. With a span it has a header and a snippet of its
/// own; without one it is a line in the margin.
pub open spec fn child_parts(
    child: SubDiagnosticView,
    snippet: Option<SnippetView>,
    width: nat,
) -> Seq<StyledText> {
    match snippet {
        Some(s) => header_parts(child.level, child.message) + line_parts(
            s,
            None,
            true,
            width,
            child.level,
        ),
        None => seq![
            StyledText { text: spaces(width) + " = "@, style: Style::LineAndColumn },
            StyledText { text: child.level.name() + ": "@, style: Style::MainHeaderMsg },
            StyledText { text: child.message + "\n"@, style: Style::NoStyle },
        ],
    }
}

/// The first `n` children as they are shown.
pub open spec fn children_parts(diag: DiagnosticView, res: ResolvedView, n: nat) -> Seq<
    StyledText,
>
    decreases n,
{
    if n == 0 {
        seq![]
    } else {
        children_parts(diag, res, (n - 1) as nat) + child_parts(
            diag.children[n - 1],
            res.children[n - 1],
            margin(res),
        )
    }
}

/// A diagnostic as it is shown: its header, its primary span, its labelled
/// spans, its children, and an empty line.
pub open spec fn formatted(diag: DiagnosticView, res: ResolvedView) -> Seq<StyledText> {
    header_parts(diag.level, diag.message) + (match res.primary {
        Some(s) => line_parts(s, None, true, margin(res), diag.level),
        None => seq![],
    }) + spans_parts(diag, res, diag.spans.len()) + children_parts(
        diag,
        res,
        diag.children.len(),
    ) + seq![StyledText { text: "\n"@, style: Style::NoStyle }]
}

/// Renders diagnostics as text: a header, the source line that a span points
/// at with marks under it, and notes. Files are named by their path as seen
/// from a base directory, which is commonly the working directory.
pub struct TextEmitter {
    colored: bool,
    base: PathBuf,
}

/// The view of a label that may not be there.
pub open spec fn label_view(label: Option<&str>) -> Option<Seq<char>> {
    match label {
        Some(l) => Some(l@),
        None => None,
    }
}

impl TextEmitter {
    /// Whether the output of the emitter is to be colored.
    pub closed spec fn is_colored(&self) -> bool {
        self.colored
    }

    /// The directory from which the files are seen.
    pub closed spec fn base(&self) -> PathBuf {
        self.base
    }

    /// Creates a new `TextEmitter`, which names files as they are seen from
    /// the directory `base`.
    pub fn new(colored: bool, base: PathBuf) -> (r: Self)
        ensures
            r.is_colored() == colored,
            r.base() == base,
    {
        Self { colored, base }
    }

    /// Whether the output of the emitter is to be colored.
    pub fn colored(&self) -> (r: bool)
        ensures
            r == self.is_colored(),
    {
        self.colored
    }

    /// The snippet for a span in a file that is shown under the name `path`.
    /// There is none without a name, nor where the file cannot show the span.
    pub fn snippet_of(file: &SourceFile, span: &Span, path: Option<String>) -> (r: Option<Snippet>)
        ensures
            match path {
                Some(p) if can_show(*file, *span) => r matches Some(s) && s.path == p && shows(
                    *file,
                    *span,
                    s@,
                ),
                _ => r.is_none(),
            },
    {
        let path = path?;
        if let SourceName::Real(_) = &file.name {
            let loc = file.lookup_location(span)?;
            let line = file.span_to_line(span)?;
            if span.start <= span.end {
                Some(Snippet { path, loc, line, length: span.end - span.start })
            } else {
                None
            }
        } else {
            None
        }
    }

    /// Resolves a span into a snippet. There is none where the manager or
    /// the file cannot show the span, nor where the file has no path as seen
    /// from the base directory.
    pub fn resolve_span(&self, sm: &SourceManager, span: &Span) -> (r: Option<Snippet>)
        ensures
            r matches Some(s) ==> shown_by(*sm, *span, s@),
            !showable(*sm, *span) ==> r.is_none(),
    {
        let file = sm.get_file(SourceIndex(span.source))?;
        let path = match &file.name {
            SourceName::Real(path) => relative_path(path, &self.base),
            SourceName::MacroExpansion(_) => None,
        };
        Self::snippet_of(&file, span, path)
    }

    /// Resolves each span of the diagnostic into a snippet. Where one of
    /// them has none there is no result. A diagnostic that points at no
    /// source is resolved without a look at the files: there is nothing to
    /// resolve.
    pub fn resolve(&self, sm: &SourceManager, diag: &Diagnostic) -> (r: Option<Resolved>)
        ensures
            r matches Some(res) ==> resolves(*sm, diag@, res@),
            !resolvable(*sm, diag@) ==> r.is_none(),
            spanless(diag@) ==> (r matches Some(res) && res@ == no_snippets(diag@)),
    {
        let primary = match diag.primary {
            Some(span) => Some(self.resolve_span(sm, &span)?),
            None => None,
        };
        let mut spans: Vec<Snippet> = Vec::new();
        let mut i: usize = 0;
        while i < diag.spans.len()
            invariant
                i <= diag.spans@.len(),
                spans@.len() == i,
                forall|k: int|
                    0 <= k < i ==> shown_by(*sm, diag.spans@[k].0, (#[trigger] spans@[k])@),
            decreases diag.spans@.len() - i,
        {
            assert(diag@.spans.len() > 0);
            let span = diag.spans[i].0;
            let snippet = match self.resolve_span(sm, &span) {
                Some(snippet) => snippet,
                None => {
                    assert(diag@.spans[i as int].0 == span);
                    return None;
                },
            };
            spans.push(snippet);
            i += 1;
        }
        let mut children: Vec<Option<Snippet>> = Vec::new();
        let mut j: usize = 0;
        while j < diag.children.len()
            invariant
                j <= diag.children@.len(),
                children@.len() == j,
                forall|k: int|
                    0 <= k < j ==> match diag.children@[k].span {
                        Some(span) => (#[trigger] children@[k]) matches Some(s) && shown_by(
                            *sm,
                            span,
                            s@,
                        ),
                        None => children@[k].is_none(),
                    },
            decreases diag.children@.len() - j,
        {
            let child = match diag.children[j].span {
                Some(span) => match self.resolve_span(sm, &span) {
                    Some(snippet) => Some(snippet),
                    None => {
                        assert(diag@.children[j as int].span == Some(span));
                        assert(!spanless(diag@));
                        return None;
                    },
                },
                None => None,
            };
            children.push(child);
            j += 1;
        }
        let res = Resolved { primary, spans, children };
        proof {
            assert forall|k: int| 0 <= k < diag@.spans.len() implies shown_by(
                *sm,
                (#[trigger] diag@.spans[k]).0,
                res@.spans[k],
            ) by {
                assert(res@.spans[k] == res.spans@[k]@);
            }
            assert forall|k: int| 0 <= k < diag@.children.len() implies match (
            #[trigger] diag@.children[k]).span {
                Some(span) => res@.children[k] matches Some(s) && shown_by(*sm, span, s),
                None => res@.children[k].is_none(),
            } by {
                assert(res@.children[k] == snippet_view(res.children@[k]));
                assert(diag@.children[k].span == diag.children@[k].span);
            }
            lemma_resolves(*sm, diag@, res@);
            if spanless(diag@) {
                assert(res@.spans =~= Seq::<SnippetView>::empty());
                assert forall|k: int| 0 <= k < res@.children.len() implies res@.children[k]
                    == None::<SnippetView> by {
                    assert(diag@.children[k].span.is_none());
                }
                assert(res@.children =~= no_snippets(diag@).children);
            }
        }
        Some(res)
    }

    /// Puts a snippet into the buffer as `line_parts` lays it out.
    pub fn emit_line(
        buffer: &mut StyledBuffer,
        snippet: &Snippet,
        label: Option<&str>,
        is_first: bool,
        max_spaces: usize,
        level: Level,
    )
        ensures
            final(buffer)@ == old(buffer)@ + line_parts(
                snippet@,
                label_view(label),
                is_first,
                max_spaces as nat,
                level,
            ),
    {
        let loc = snippet.loc;
        if is_first {
            buffer.puts(StyledString::new(String::from_str("--> "), Style::LineAndColumn));
            let mut place = snippet.path.clone();
            place.append(":");
            push_decimal(&mut place, loc.line as u128 + 1);
            place.append(":");
            push_decimal(&mut place, loc.col as u128 + 1);
            place.append("\n");
            buffer.puts(StyledString::new(place, Style::NoStyle));
        }
        let ghost head = buffer@;
        assert(head =~= old(buffer)@ + if is_first {
            location_header(snippet@)
        } else {
            seq![]
        });

        let mut bar = String::new();
        push_repeated(&mut bar, ' ', max_spaces);
        bar.append(" | \n");
        assert(bar@ =~= spaces(max_spaces as nat) + " | \n"@);
        let mut last_bar = String::new();
        push_repeated(&mut last_bar, ' ', max_spaces);
        last_bar.append(" | \n");
        assert(last_bar@ =~= spaces(max_spaces as nat) + " | \n"@);
        buffer.puts(StyledString::new(bar, Style::LineAndColumn));

        let mut number = String::new();
        push_decimal(&mut number, loc.line as u128);
        number.append(" | ");
        assert(number@ =~= decimal(loc.line as nat) + " | "@);
        buffer.puts(StyledString::new(number, Style::LineAndColumn));

        let mut source = snippet.line.clone();
        source.append("\n");
        buffer.puts(StyledString::new(source, Style::NoStyle));

        let mut gutter = String::new();
        push_repeated(&mut gutter, ' ', max_spaces);
        gutter.append(" | ");
        assert(gutter@ =~= spaces(max_spaces as nat) + " | "@);
        buffer.puts(StyledString::new(gutter, Style::LineAndColumn));

        let mut marks = String::new();
        push_repeated(&mut marks, ' ', loc.col.wrapping_add(loc.col_offset) as usize);
        push_repeated(&mut marks, '^', snippet.length);
        if let Some(label) = label {
            marks.append(" ");
            marks.append(label);
        }
        marks.append("\n");
        assert(marks@ =~= annotation(snippet@, label_view(label)));
        buffer.puts(StyledString::new(marks, Style::Level(level)));

        buffer.puts(StyledString::new(last_bar, Style::LineAndColumn));
        assert(buffer@ =~= old(buffer)@ + line_parts(
            snippet@,
            label_view(label),
            is_first,
            max_spaces as nat,
            level,
        ));
    }

    /// How wide the margin of the diagnostic is.
    pub fn max_line_num_width(res: &Resolved) -> (w: usize)
        ensures
            w == margin(res@),
    {
        let mut max_width: usize = 0;
        if let Some(primary) = &res.primary {
            max_width = decimal_width(primary.loc.line);
        }
        let mut i: usize = 0;
        while i < res.spans.len()
            invariant
                i <= res.spans@.len(),
                max_width == larger(
                    match res@.primary {
                        Some(s) => number_width(s),
                        None => 0,
                    },
                    widest(res@.spans, i as nat),
                ),
            decreases res.spans@.len() - i,
        {
            let width = decimal_width(res.spans[i].loc.line);
            assert(res@.spans[i as int] == res.spans@[i as int]@);
            if width > max_width {
                max_width = width;
            }
            i += 1;
        }
        max_width
    }

    fn puts_header(buffer: &mut StyledBuffer, level: Level, message: &str)
        ensures
            final(buffer)@ == old(buffer)@ + header_parts(level, message@),
    {
        buffer.puts(level.as_styled_string());
        let mut text = String::from_str(": ");
        text.append(message);
        text.append("\n");
        buffer.puts(StyledString::new(text, Style::MainHeaderMsg));
        assert(buffer@ =~= old(buffer)@ + header_parts(level, message@));
    }

    /// Lays the diagnostic out with its snippets, as `formatted` says. There
    /// is no result where the snippets do not fit the diagnostic.
    pub fn format(diag: &Diagnostic, res: &Resolved) -> (r: Option<StyledBuffer>)
        ensures
            fits(diag@, res@) ==> (r matches Some(buffer) && buffer@ == formatted(diag@, res@)),
            !fits(diag@, res@) ==> r.is_none(),
    {
        if diag.primary.is_some() != res.primary.is_some() || diag.spans.len() != res.spans.len()
            || diag.children.len() != res.children.len() {
            return None;
        }
        let mut buffer = StyledBuffer::new();
        assert(buffer@ =~= Seq::<StyledText>::empty());
        Self::puts_header(&mut buffer, diag.level, diag.message.as_str());
        let max_spaces = Self::max_line_num_width(res);
        let mut is_first = true;
        if let Some(primary) = &res.primary {
            Self::emit_line(&mut buffer, primary, None, true, max_spaces, diag.level);
            is_first = false;
        }
        let ghost top = buffer@;
        assert(top =~= header_parts(diag@.level, diag@.message) + (match res@.primary {
            Some(s) => line_parts(s, None, true, margin(res@), diag@.level),
            None => seq![],
        }));
        let mut i: usize = 0;
        while i < diag.spans.len()
            invariant
                i <= diag.spans@.len(),
                diag.spans@.len() == res.spans@.len(),
                max_spaces == margin(res@),
                is_first == (diag@.primary.is_none() && i == 0),
                diag@.primary.is_some() == res@.primary.is_some(),
                buffer@ == top + spans_parts(diag@, res@, i as nat),
            decreases diag.spans@.len() - i,
        {
            assert(res@.spans[i as int] == res.spans@[i as int]@);
            assert(diag@.spans[i as int].1 == diag.spans@[i as int].1@);
            Self::emit_line(
                &mut buffer,
                &res.spans[i],
                Some(diag.spans[i].1.as_str()),
                is_first,
                max_spaces,
                diag.level,
            );
            is_first = false;
            i += 1;
            assert(buffer@ =~= top + spans_parts(diag@, res@, i as nat));
        }
        let ghost middle = buffer@;
        let mut j: usize = 0;
        while j < diag.children.len()
            invariant
                j <= diag.children@.len(),
                diag.children@.len() == res.children@.len(),
                max_spaces == margin(res@),
                forall|k: int|
                    0 <= k < j ==> (#[trigger] diag@.children[k]).span.is_some()
                        == res@.children[k].is_some(),
                buffer@ == middle + children_parts(diag@, res@, j as nat),
            decreases diag.children@.len() - j,
        {
            let subd = &diag.children[j];
            assert(diag@.children[j as int] == subd@);
            assert(res@.children[j as int] == snippet_view(res.children@[j as int]));
            match (&subd.span, &res.children[j]) {
                (Some(_), Some(snippet)) => {
                    Self::puts_header(&mut buffer, subd.level, subd.message.as_str());
                    Self::emit_line(&mut buffer, snippet, None, true, max_spaces, subd.level);
                },
                (None, None) => {
                    let mut gap = String::new();
                    push_repeated(&mut gap, ' ', max_spaces);
                    gap.append(" = ");
                    assert(gap@ =~= spaces(max_spaces as nat) + " = "@);
                    buffer.puts(StyledString::new(gap, Style::LineAndColumn));
                    let mut kind = String::from_str(subd.level.to_str());
                    kind.append(": ");
                    buffer.puts(StyledString::new(kind, Style::MainHeaderMsg));
                    let mut text = subd.message.clone();
                    text.append("\n");
                    buffer.puts(StyledString::new(text, Style::NoStyle));
                },
                _ => {
                    return None;
                },
            }
            j += 1;
            assert(buffer@ =~= middle + children_parts(diag@, res@, j as nat));
        }
        buffer.puts(StyledString::new(String::from_str("\n"), Style::NoStyle));
        assert(buffer@ =~= formatted(diag@, res@));
        Some(buffer)
    }

    /// Renders the diagnostic: resolves its spans with the files of the
    /// manager and lays it out. There is no result where a span cannot be
    /// resolved. A diagnostic that points at no source is always rendered:
    /// its header, its children as lines in the margin, and an empty line.
    pub fn emit_diagnostic_inner(&self, sm: &SourceManager, diag: &Diagnostic) -> (r: Option<
        StyledBuffer,
    >)
        ensures
            r matches Some(buffer) ==> exists|res: ResolvedView|
                resolves(*sm, diag@, res) && buffer@ == formatted(diag@, res),
            !resolvable(*sm, diag@) ==> r.is_none(),
            spanless(diag@) ==> (r matches Some(buffer) && buffer@ == formatted(
                diag@,
                no_snippets(diag@),
            )),
    {
        let res = self.resolve(sm, diag)?;
        proof {
            lemma_resolves(*sm, diag@, res@);
        }
        Self::format(diag, &res)
    }
}

} // verus!
