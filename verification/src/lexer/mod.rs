//! The lexer: from source text to preprocessing tokens.
//!
//! The text is cut into tokens by the grammar. Block comments are taken out
//! here, as nothing behind the lexer has a use for them; what is wrong with
//! the tokens is reported through the session.
use std::rc::Rc;

use vstd::prelude::*;
use vstd::utf8::encode_utf8;

use crate::diagnostic::emitter::Emitter;
use crate::diagnostic::session::Session;
use crate::diagnostic::{
    delivered, DiagnosticView, Level, SourceFile, SourceManager, Span, SubDiagnosticView,
};

pub mod grammar;
pub mod laws;
pub mod token;
pub mod tokenizer;

pub use token::{PToken, PTokenKind};

use grammar::tokens_of;
use tokenizer::tokenize;

verus! {

/// What the lexer answers: the tokens, or nothing if there was an error.
pub type LexResult = Result<Vec<PToken>, ()>;

/// Where the lexer stands after some tokens.
pub struct Lexing {
    /// The tokens that are kept.
    pub tokens: Seq<PToken>,
    /// The beginning of the block comment that is open.
    pub comment: Option<PToken>,
    /// Whether an error was reported.
    pub failed: bool,
    /// The diagnostics that were handed to the session, in order.
    pub reports: Seq<DiagnosticView>,
}

/// The warning about a `/*` inside a block comment. It points at the
/// beginning of the comment that is open.
pub open spec fn nested_comment(outer: PToken) -> DiagnosticView {
    DiagnosticView {
        level: Level::Warning,
        message: "`/*` within block comment"@,
        primary: Some(outer.span()),
        spans: Seq::empty(),
        children: seq![
            SubDiagnosticView {
                level: Level::Note,
                message: "block comments cannot be nested"@,
                span: None,
            },
        ],
    }
}

/// The error about a `*/` outside a block comment.
pub open spec fn lone_terminator(token: PToken) -> DiagnosticView {
    DiagnosticView {
        level: Level::Error,
        message: "unexpected token `*/`"@,
        primary: None,
        spans: seq![(token.span(), "lone block comment terminator"@)],
        children: Seq::empty(),
    }
}

/// The error about text that is no token. `text` is that text.
pub open spec fn invalid_token(token: PToken, text: Seq<char>) -> DiagnosticView {
    DiagnosticView {
        level: Level::Error,
        message: "error lexing token `"@ + text + "`"@,
        primary: None,
        spans: seq![(token.span(), "invalid token found"@)],
        children: Seq::empty(),
    }
}

/// The error about a block comment that is open at the end of the text.
pub open spec fn unterminated_comment(start: PToken) -> DiagnosticView {
    DiagnosticView {
        level: Level::Error,
        message: "Unterminated block comment begins here"@,
        primary: Some(start.span()),
        spans: Seq::empty(),
        children: Seq::empty(),
    }
}

/// The text of a token as the session has it, or no text where the session
/// has none for it.
pub open spec fn shown_text(sm: SourceManager, token: PToken) -> Seq<char> {
    match sm.text_of(token.span()) {
        Some(text) => text,
        None => Seq::empty(),
    }
}

/// What one more token does to the lexer.
///
/// A `/*` opens a block comment, or is warned about if one is open. A `*/`
/// closes the comment, or is an error if none is open. Every other token is
/// dropped inside a comment and kept outside; an error token that is kept is
/// reported as well.
pub open spec fn lex_step(st: Lexing, token: PToken, text: Seq<char>) -> Lexing {
    if token.kind == PTokenKind::CommentMultiStart {
        match st.comment {
            Some(outer) => Lexing { reports: st.reports.push(nested_comment(outer)), ..st },
            None => Lexing { comment: Some(token), ..st },
        }
    } else if token.kind == PTokenKind::CommentMultiEnd {
        if st.comment.is_some() {
            Lexing { comment: None, ..st }
        } else {
            Lexing { failed: true, reports: st.reports.push(lone_terminator(token)), ..st }
        }
    } else if st.comment.is_none() {
        if token.kind == PTokenKind::ErrorGeneric {
            Lexing {
                tokens: st.tokens.push(token),
                failed: true,
                reports: st.reports.push(invalid_token(token, text)),
                ..st
            }
        } else {
            Lexing { tokens: st.tokens.push(token), ..st }
        }
    } else {
        st
    }
}

/// Where the lexer stands after the first `n` tokens.
pub open spec fn lexing(raw: Seq<PToken>, sm: SourceManager, n: nat) -> Lexing
    decreases n,
{
    if n == 0 {
        Lexing { tokens: Seq::empty(), comment: None, failed: false, reports: Seq::empty() }
    } else {
        lex_step(lexing(raw, sm, (n - 1) as nat), raw[n - 1], shown_text(sm, raw[n - 1]))
    }
}

/// Where the lexer stands in the end: a block comment that is still open is
/// an error.
pub open spec fn lexed(raw: Seq<PToken>, sm: SourceManager) -> Lexing {
    let st = lexing(raw, sm, raw.len());
    match st.comment {
        Some(start) => Lexing {
            failed: true,
            reports: st.reports.push(unterminated_comment(start)),
            ..st
        },
        None => st,
    }
}

/// Whether `r` is what the lexer answers for the tokens `raw`, with the
/// session as it is left: the tokens that are kept, unless there was an
/// error; and the reports passed on to the emitter of the session.
pub open spec fn lexes<E: Emitter>(
    raw: Seq<PToken>,
    before: Session<E>,
    after: Session<E>,
    r: LexResult,
) -> bool {
    let st = lexed(raw, before.sources());
    &&& after.sources() == before.sources()
    &&& after.diagnostics().flags() == before.diagnostics().flags()
    &&& after.diagnostics().emitted() == delivered(
        before.diagnostics().emitted(),
        before.diagnostics().flags().emit_warnings,
        st.reports,
    )
    &&& match r {
        Ok(tokens) => !st.failed && tokens@ == st.tokens,
        Err(_) => st.failed,
    }
}

/// Takes the block comments out of the tokens of a text and reports what is
/// wrong with the tokens.
pub fn lex_tokens<E: Emitter>(session: &mut Session<E>, raw: &Vec<PToken>) -> (r: LexResult)
    ensures
        lexes(raw@, *old(session), *final(session), r),
{
    let mut tokens: Vec<PToken> = Vec::new();
    let mut had_error = false;
    let mut multi_comment_start: Option<PToken> = None;
    let ghost sm = session.sources();
    let ghost emitted = session.diagnostics().emitted();
    let ghost flags = session.diagnostics().flags();
    let mut i: usize = 0;
    while i < raw.len()
        invariant
            i <= raw@.len(),
            session.sources() == sm,
            session.diagnostics().flags() == flags,
            ({
                let st = lexing(raw@, sm, i as nat);
                &&& tokens@ == st.tokens
                &&& multi_comment_start == st.comment
                &&& had_error == st.failed
                &&& session.diagnostics().emitted() == delivered(
                    emitted,
                    flags.emit_warnings,
                    st.reports,
                )
            }),
        decreases raw@.len() - i,
    {
        let token = raw[i];
        let ghost st = lexing(raw@, sm, i as nat);
        let ghost next = lex_step(st, token, shown_text(sm, token));
        if token.kind == PTokenKind::CommentMultiStart {
            if let Some(comment_start) = multi_comment_start {
                let mut db = session.struct_span_warn(
                    Span::from(comment_start),
                    "`/*` within block comment",
                );
                db.note("block comments cannot be nested");
                assert(db.diagnostic() =~= nested_comment(comment_start));
                session.emit(&mut db);
                assert(next.reports.drop_last() =~= st.reports);
            } else {
                multi_comment_start = Some(token);
            }
        } else if token.kind == PTokenKind::CommentMultiEnd {
            if multi_comment_start.is_some() {
                multi_comment_start = None;
            } else {
                let mut db = session.struct_error("unexpected token `*/`");
                db.span_label(Span::from(token), "lone block comment terminator");
                assert(db.diagnostic() =~= lone_terminator(token));
                session.emit(&mut db);
                assert(next.reports.drop_last() =~= st.reports);
                had_error = true;
            }
        } else if multi_comment_start.is_none() {
            if token.kind == PTokenKind::ErrorGeneric {
                let mut message = String::from_str("error lexing token `");
                if let Some(text) = session.span_to_string(Span::from(token)) {
                    message.append(text.as_str());
                }
                message.append("`");
                assert(message@ =~= "error lexing token `"@ + shown_text(sm, token) + "`"@);
                let mut db = session.struct_error(message.as_str());
                db.span_label(Span::from(token), "invalid token found");
                assert(db.diagnostic() =~= invalid_token(token, shown_text(sm, token)));
                session.emit(&mut db);
                assert(next.reports.drop_last() =~= st.reports);
                had_error = true;
            }
            tokens.push(token);
        }
        i += 1;
    }
    if let Some(comment_start) = multi_comment_start {
        let ghost st = lexing(raw@, sm, raw@.len());
        let mut db = session.struct_span_error(
            Span::from(comment_start),
            "Unterminated block comment begins here",
        );
        assert(db.diagnostic() =~= unterminated_comment(comment_start));
        session.emit(&mut db);
        assert(lexed(raw@, sm).reports.drop_last() =~= st.reports);
        had_error = true;
    }
    if !had_error {
        Ok(tokens)
    } else {
        Err(())
    }
}

/// Runs the lexer on the text of a source file: cuts it into tokens, takes
/// the block comments out and reports what is wrong with the tokens. The
/// file has to have text.
pub fn lex<E: Emitter>(session: &mut Session<E>, input_file: Rc<SourceFile>) -> (r: LexResult)
    requires
        input_file.src.is_some(),
    ensures
        lexes(
            tokens_of(encode_utf8(input_file.src.unwrap()@), input_file.index.0),
            *old(session),
            *final(session),
            r,
        ),
{
    let source = match &input_file.src {
        Some(source) => source,
        None => vstd::pervasive::unreached(),
    };
    let raw = tokenize(source.as_str().as_bytes(), input_file.index.0);
    lex_tokens(session, &raw)
}

} // verus!
