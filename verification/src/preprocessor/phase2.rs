//! Phase 2 of translation: line splicing.
//!
//! The C standard has each backslash that a newline follows deleted together
//! with that newline, so that physical source lines become logical ones.
//! Phase 1, the replacing of trigraphs, can wait; this phase comes first.
//! Single-line comments mean nothing to what follows and are taken out here
//! as well.
use vstd::prelude::*;

use crate::diagnostic::emitter::Emitter;
use crate::diagnostic::session::Session;
use crate::diagnostic::{delivered, DiagnosticView, Level, SourceManager, Span};
use crate::lexer::{shown_text, PToken, PTokenKind};

verus! {

/// Where the phase stands after some tokens.
pub struct Splicing {
    /// The tokens that are kept.
    pub tokens: Seq<PToken>,
    /// The backslash that waits for its newline.
    pub backslash: Option<PToken>,
    /// Whether an error was reported.
    pub failed: bool,
    /// The diagnostics that were handed to the session, in order.
    pub reports: Seq<DiagnosticView>,
}

/// The warning about whitespace between a backslash and its newline.
pub open spec fn whitespace_after_backslash(token: PToken) -> DiagnosticView {
    DiagnosticView {
        level: Level::Warning,
        message: "whitespace before newline after `\\`"@,
        primary: Some(token.span()),
        spans: Seq::empty(),
        children: Seq::empty(),
    }
}

/// The error about a token behind a backslash that is no newline. `text` is
/// the text of the token.
pub open spec fn unexpected_token(token: PToken, text: Seq<char>) -> DiagnosticView {
    DiagnosticView {
        level: Level::Error,
        message: "found unexpected token `"@ + text + "`"@,
        primary: None,
        spans: seq![(token.span(), "expected newline after `\\`, found this"@)],
        children: Seq::empty(),
    }
}

/// The error about a backslash at the end of the tokens.
pub open spec fn unexpected_end(backslash: PToken) -> DiagnosticView {
    DiagnosticView {
        level: Level::Error,
        message: "unexpected end of file"@,
        primary: None,
        spans: seq![(backslash.span(), "after backslash"@)],
        children: Seq::empty(),
    }
}

/// What one more token does to the phase.
///
/// Behind a backslash, a newline is deleted with the backslash; whitespace
/// is warned about and skipped; any other token is an error, and is dropped
/// with the backslash. Elsewhere a backslash waits for what follows, a
/// single-line comment is dropped, and every other token is kept.
pub open spec fn splice_step(st: Splicing, token: PToken, text: Seq<char>) -> Splicing {
    if st.backslash.is_some() {
        if token.kind == PTokenKind::Newline {
            Splicing { backslash: None, ..st }
        } else if token.kind == PTokenKind::Whitespace {
            Splicing { reports: st.reports.push(whitespace_after_backslash(token)), ..st }
        } else {
            Splicing {
                backslash: None,
                failed: true,
                reports: st.reports.push(unexpected_token(token, text)),
                ..st
            }
        }
    } else if token.kind == PTokenKind::CommentSingle {
        st
    } else if token.kind == PTokenKind::Backslash {
        Splicing { backslash: Some(token), ..st }
    } else {
        Splicing { tokens: st.tokens.push(token), ..st }
    }
}

/// Where the phase stands after the first `n` tokens.
pub open spec fn splicing(tokens: Seq<PToken>, sm: SourceManager, n: nat) -> Splicing
    decreases n,
{
    if n == 0 {
        Splicing { tokens: Seq::empty(), backslash: None, failed: false, reports: Seq::empty() }
    } else {
        splice_step(
            splicing(tokens, sm, (n - 1) as nat),
            tokens[n - 1],
            shown_text(sm, tokens[n - 1]),
        )
    }
}

/// Where the phase stands in the end: a backslash that still waits is an
/// error.
pub open spec fn spliced(tokens: Seq<PToken>, sm: SourceManager) -> Splicing {
    let st = splicing(tokens, sm, tokens.len());
    match st.backslash {
        Some(backslash) => Splicing {
            failed: true,
            reports: st.reports.push(unexpected_end(backslash)),
            ..st
        },
        None => st,
    }
}

/// Runs phase 2 of translation: deletes each backslash with the newline
/// behind it, and the single-line comments. Answers the tokens that are
/// left, or nothing if there was an error; what is wrong is reported through
/// the session.
pub fn phase2<E: Emitter>(tokens: Vec<PToken>, session: &mut Session<E>) -> (r: Result<
    Vec<PToken>,
    (),
>)
    ensures
        ({
            let st = spliced(tokens@, old(session).sources());
            &&& final(session).sources() == old(session).sources()
            &&& final(session).diagnostics().flags() == old(session).diagnostics().flags()
            &&& final(session).diagnostics().emitted() == delivered(
                old(session).diagnostics().emitted(),
                old(session).diagnostics().flags().emit_warnings,
                st.reports,
            )
            &&& match r {
                Ok(kept) => !st.failed && kept@ == st.tokens,
                Err(_) => st.failed,
            }
        }),
{
    let mut new_tokens: Vec<PToken> = Vec::new();
    let mut backslash: Option<PToken> = None;
    let mut has_error = false;
    let ghost sm = session.sources();
    let ghost emitted = session.diagnostics().emitted();
    let ghost flags = session.diagnostics().flags();
    let mut i: usize = 0;
    while i < tokens.len()
        invariant
            i <= tokens@.len(),
            session.sources() == sm,
            session.diagnostics().flags() == flags,
            ({
                let st = splicing(tokens@, sm, i as nat);
                &&& new_tokens@ == st.tokens
                &&& backslash == st.backslash
                &&& has_error == st.failed
                &&& session.diagnostics().emitted() == delivered(
                    emitted,
                    flags.emit_warnings,
                    st.reports,
                )
            }),
        decreases tokens@.len() - i,
    {
        let token = tokens[i];
        let ghost st = splicing(tokens@, sm, i as nat);
        let ghost next = splice_step(st, token, shown_text(sm, token));
        if backslash.is_some() {
            if token.kind == PTokenKind::Newline {
                backslash = None;
            } else if token.kind == PTokenKind::Whitespace {
                let mut db = session.struct_span_warn(
                    Span::from(token),
                    "whitespace before newline after `\\`",
                );
                assert(db.diagnostic() =~= whitespace_after_backslash(token));
                session.emit(&mut db);
                assert(next.reports.drop_last() =~= st.reports);
            } else {
                let mut message = String::from_str("found unexpected token `");
                if let Some(text) = session.span_to_string(Span::from(token)) {
                    message.append(text.as_str());
                }
                message.append("`");
                assert(message@ =~= "found unexpected token `"@ + shown_text(sm, token) + "`"@);
                let mut db = session.struct_error(message.as_str());
                db.span_label(Span::from(token), "expected newline after `\\`, found this");
                assert(db.diagnostic() =~= unexpected_token(token, shown_text(sm, token)));
                session.emit(&mut db);
                assert(next.reports.drop_last() =~= st.reports);
                // One mistake need not be the last: go on
                has_error = true;
                backslash = None;
            }
        } else if token.kind != PTokenKind::CommentSingle {
            if token.kind == PTokenKind::Backslash {
                backslash = Some(token);
            } else {
                new_tokens.push(token);
            }
        }
        i += 1;
    }
    if let Some(backslash) = backslash {
        let ghost st = splicing(tokens@, sm, tokens@.len());
        let mut db = session.struct_error("unexpected end of file");
        db.span_label(Span::from(backslash), "after backslash");
        assert(db.diagnostic() =~= unexpected_end(backslash));
        session.emit(&mut db);
        assert(spliced(tokens@, sm).reports.drop_last() =~= st.reports);
        has_error = true;
    }
    if has_error {
        Err(())
    } else {
        Ok(new_tokens)
    }
}

} // verus!
