//! The tokens that the lexer hands to the preprocessor.
use vstd::prelude::*;

use crate::diagnostic::Span;

verus! {

/// The kind of a preprocessing token.
#[derive(Debug, PartialEq, Eq, Clone, Copy, Structural)]
pub enum PTokenKind {
    /// A valid C identifier.
    Identifier,
    /// A number as the C preprocessor sees it, which need not be a number
    /// that can be parsed.
    Number,
    /// A C character constant. It may hold more than one character, so that
    /// escape sequences can be dealt with later.
    CharacterConstant,
    /// A string literal. Its escape sequences are not looked at here.
    LiteralString,
    /// Left parenthesis.
    ParenLeft,
    /// Right parenthesis.
    ParenRight,
    /// A comma.
    Comma,
    /// Any other operator or symbol.
    Punctuator,
    /// A backslash, which splices lines when a newline follows.
    Backslash,
    /// A newline of any platform.
    Newline,
    /// A single-line comment, up to the end of its line.
    CommentSingle,
    /// The beginning of a block comment.
    CommentMultiStart,
    /// The end of a block comment.
    CommentMultiEnd,
    /// Whitespace other than a newline, which the preprocessor has to see.
    Whitespace,
    /// A piece of text that is no token at all.
    ErrorGeneric,
}

/// A token that the lexer has produced from C source text, for the
/// preprocessor.
#[derive(Debug, PartialEq, Eq, Clone, Copy, Structural)]
pub struct PToken {
    /// The kind of token.
    pub kind: PTokenKind,
    /// The index of the source among the files of the source manager.
    pub source: usize,
    /// The index of the first byte of the token in the source text.
    pub start: usize,
    /// The index behind the last byte of the token.
    pub end: usize,
}

impl PToken {
    /// The span of text that the token takes.
    pub open spec fn span(self) -> Span {
        Span { start: self.start, end: self.end, source: self.source }
    }
}

impl From<PToken> for Span {
    fn from(token: PToken) -> (r: Self) {
        Self { start: token.start, end: token.end, source: token.source }
    }
}

impl vstd::std_specs::convert::FromSpecImpl<PToken> for Span {
    open spec fn obeys_from_spec() -> bool {
        true
    }

    open spec fn from_spec(token: PToken) -> Span {
        token.span()
    }
}

} // verus!
