//! The grammar of preprocessing tokens.
//!
//! Each kind of token has a rule that says how far a token of that kind
//! reaches from a place in the text. The token at a place is the one whose
//! rule reaches farthest; where no rule reaches anywhere, the character at
//! that place is an error token.
use vstd::prelude::*;

use super::token::{PToken, PTokenKind};

verus! {

/// A letter of an identifier: `_`, `a` to `z`, `A` to `Z`.
pub open spec fn is_letter(b: u8) -> bool {
    b == '_' as u8 || ('a' as u8 <= b <= 'z' as u8) || ('A' as u8 <= b <= 'Z' as u8)
}

/// A decimal digit.
pub open spec fn is_digit(b: u8) -> bool {
    '0' as u8 <= b <= '9' as u8
}

/// The classes of bytes of which some tokens are runs.
#[derive(Debug, PartialEq, Eq, Clone, Copy, Structural)]
pub enum ByteClass {
    /// Letters and digits: what an identifier goes on with.
    Identifier,
    /// Letters, digits, `-`, `+` and `.`: what a number goes on with.
    Number,
    /// Space and tab.
    Blank,
    /// Everything but the line feed: what a single-line comment goes on with.
    Comment,
    /// The bytes that go on with a character of more than one byte.
    Continuation,
}

/// Whether the byte belongs to the class.
pub open spec fn in_class(class: ByteClass, b: u8) -> bool {
    match class {
        ByteClass::Identifier => is_letter(b) || is_digit(b),
        ByteClass::Number => is_letter(b) || is_digit(b) || b == '-' as u8 || b == '+' as u8 || b
            == '.' as u8,
        ByteClass::Blank => b == ' ' as u8 || b == '\t' as u8,
        ByteClass::Comment => b != '\n' as u8,
        ByteClass::Continuation => 0x80 <= b < 0xC0,
    }
}

/// Where the longest run of bytes of the class ends that begins at `i`.
pub open spec fn run_end(text: Seq<u8>, i: int, class: ByteClass) -> int
    decreases text.len() - i,
{
    if 0 <= i < text.len() && in_class(class, text[i]) {
        run_end(text, i + 1, class)
    } else {
        i
    }
}

/// Whether the bytes `a` and `b` stand at `i`.
pub open spec fn pair_at(text: Seq<u8>, i: int, a: char, b: char) -> bool {
    0 <= i && i + 1 < text.len() && text[i] == a as u8 && text[i + 1] == b as u8
}

/// Whether the byte `a` stands at `i`.
pub open spec fn byte_at(text: Seq<u8>, i: int, a: char) -> bool {
    0 <= i < text.len() && text[i] == a as u8
}

/// An identifier: a letter, then letters and digits.
pub open spec fn identifier_end(text: Seq<u8>, i: int) -> int {
    if 0 <= i < text.len() && is_letter(text[i]) {
        run_end(text, i + 1, ByteClass::Identifier)
    } else {
        i
    }
}

/// A number: a digit, or a dot and a digit; then letters, digits, `-`, `+`
/// and `.` in any order.
pub open spec fn number_end(text: Seq<u8>, i: int) -> int {
    if 0 <= i < text.len() && is_digit(text[i]) {
        run_end(text, i + 1, ByteClass::Number)
    } else if byte_at(text, i, '.') && i + 1 < text.len() && is_digit(text[i + 1]) {
        run_end(text, i + 2, ByteClass::Number)
    } else {
        i
    }
}

/// Where quoted text ends that goes on at `j`: behind the first `quote` that
/// no backslash stands before. A backslash takes the byte behind it along.
/// There is no end where the text runs out first.
pub open spec fn quote_close(text: Seq<u8>, j: int, quote: u8) -> Option<int>
    decreases text.len() - j,
{
    if j < 0 || j >= text.len() {
        None
    } else if text[j] == quote {
        Some(j + 1)
    } else if text[j] == '\\' as u8 {
        if j + 1 < text.len() {
            quote_close(text, j + 2, quote)
        } else {
            None
        }
    } else {
        quote_close(text, j + 1, quote)
    }
}

/// Where the quote of a literal stands: behind an `L`, if there is one.
pub open spec fn quote_place(text: Seq<u8>, i: int) -> int {
    if byte_at(text, i, 'L') {
        i + 1
    } else {
        i
    }
}

/// A character constant: an optional `L`, and between single quotes at
/// least one character.
pub open spec fn character_end(text: Seq<u8>, i: int) -> int {
    let q = quote_place(text, i);
    if byte_at(text, q, '\'') && !byte_at(text, q + 1, '\'') {
        match quote_close(text, q + 1, '\'' as u8) {
            Some(end) => end,
            None => i,
        }
    } else {
        i
    }
}

/// A string literal: an optional `L`, and between double quotes any
/// characters.
pub open spec fn string_end(text: Seq<u8>, i: int) -> int {
    let q = quote_place(text, i);
    if byte_at(text, q, '"') {
        match quote_close(text, q + 1, '"' as u8) {
            Some(end) => end,
            None => i,
        }
    } else {
        i
    }
}

/// A token of the one byte `a`.
pub open spec fn single_end(text: Seq<u8>, i: int, a: char) -> int {
    if byte_at(text, i, a) {
        i + 1
    } else {
        i
    }
}

/// A token of the two bytes `a` and `b`.
pub open spec fn pair_end(text: Seq<u8>, i: int, a: char, b: char) -> int {
    if pair_at(text, i, a, b) {
        i + 2
    } else {
        i
    }
}

/// A newline: carriage return and line feed, or one of the two.
pub open spec fn newline_end(text: Seq<u8>, i: int) -> int {
    if pair_at(text, i, '\r', '\n') {
        i + 2
    } else if byte_at(text, i, '\r') || byte_at(text, i, '\n') {
        i + 1
    } else {
        i
    }
}

/// A single-line comment: two slashes and the rest of the line.
pub open spec fn line_comment_end(text: Seq<u8>, i: int) -> int {
    if pair_at(text, i, '/', '/') {
        run_end(text, i + 2, ByteClass::Comment)
    } else {
        i
    }
}

/// The punctuators of one byte.
pub open spec fn is_punctuator1(a: u8) -> bool {
    a == '[' as u8 || a == ']' as u8 || a == '{' as u8 || a == '}' as u8 || a == '.' as u8 || a
        == '&' as u8 || a == '*' as u8 || a == '+' as u8 || a == '-' as u8 || a == '~' as u8 || a
        == '!' as u8 || a == '/' as u8 || a == '%' as u8 || a == '<' as u8 || a == '>' as u8 || a
        == '^' as u8 || a == '|' as u8 || a == '?' as u8 || a == ':' as u8 || a == ';' as u8 || a
        == '=' as u8 || a == '#' as u8
}

/// Whether the two bytes are the two characters.
pub open spec fn are(a: u8, b: u8, x: char, y: char) -> bool {
    a == x as u8 && b == y as u8
}

/// The punctuators of two bytes.
pub open spec fn is_punctuator2(a: u8, b: u8) -> bool {
    are(a, b, '-', '>') || are(a, b, '+', '+') || are(a, b, '-', '-') || are(a, b, '<', '<')
        || are(a, b, '>', '>') || are(a, b, '<', '=') || are(a, b, '>', '=') || are(
        a,
        b,
        '=',
        '=',
    ) || are(a, b, '!', '=') || are(a, b, '&', '&') || are(a, b, '|', '|') || are(a, b, '*', '=')
        || are(a, b, '/', '=') || are(a, b, '%', '=') || are(a, b, '+', '=') || are(
        a,
        b,
        '-',
        '=',
    ) || are(a, b, '&', '=') || are(a, b, '^', '=') || are(a, b, '|', '=') || are(a, b, '#', '#')
        || are(a, b, '<', ':') || are(a, b, ':', '>') || are(a, b, '<', '%') || are(
        a,
        b,
        '%',
        '>',
    ) || are(a, b, '%', ':')
}

/// The punctuators of three bytes: `...`, `<<=` and `>>=`.
pub open spec fn is_punctuator3(a: u8, b: u8, c: u8) -> bool {
    (are(a, b, '.', '.') && c == '.' as u8) || (are(a, b, '<', '<') && c == '=' as u8) || (are(
        a,
        b,
        '>',
        '>',
    ) && c == '=' as u8)
}

/// The punctuator of four bytes: `%:%:`.
pub open spec fn is_punctuator4(a: u8, b: u8, c: u8, d: u8) -> bool {
    are(a, b, '%', ':') && are(c, d, '%', ':')
}

/// A punctuator: the longest that stands at `i`.
pub open spec fn punctuator_end(text: Seq<u8>, i: int) -> int {
    if i < 0 {
        i
    } else if i + 4 <= text.len() && is_punctuator4(
        text[i],
        text[i + 1],
        text[i + 2],
        text[i + 3],
    ) {
        i + 4
    } else if i + 3 <= text.len() && is_punctuator3(text[i], text[i + 1], text[i + 2]) {
        i + 3
    } else if i + 2 <= text.len() && is_punctuator2(text[i], text[i + 1]) {
        i + 2
    } else if i + 1 <= text.len() && is_punctuator1(text[i]) {
        i + 1
    } else {
        i
    }
}

/// How far a token of the kind reaches from `i`. It reaches nowhere, and the
/// result is `i`, where no token of the kind begins at `i`.
pub open spec fn rule_end(kind: PTokenKind, text: Seq<u8>, i: int) -> int {
    match kind {
        PTokenKind::Identifier => identifier_end(text, i),
        PTokenKind::Number => number_end(text, i),
        PTokenKind::CharacterConstant => character_end(text, i),
        PTokenKind::LiteralString => string_end(text, i),
        PTokenKind::ParenLeft => single_end(text, i, '('),
        PTokenKind::ParenRight => single_end(text, i, ')'),
        PTokenKind::Comma => single_end(text, i, ','),
        PTokenKind::Punctuator => punctuator_end(text, i),
        PTokenKind::Backslash => single_end(text, i, '\\'),
        PTokenKind::Newline => newline_end(text, i),
        PTokenKind::CommentSingle => line_comment_end(text, i),
        PTokenKind::CommentMultiStart => pair_end(text, i, '/', '*'),
        PTokenKind::CommentMultiEnd => pair_end(text, i, '*', '/'),
        PTokenKind::Whitespace => run_end(text, i, ByteClass::Blank),
        PTokenKind::ErrorGeneric => i,
    }
}

/// The kinds that have a rule, in the order in which they are tried.
pub open spec fn rules() -> Seq<PTokenKind> {
    seq![
        PTokenKind::Identifier,
        PTokenKind::Number,
        PTokenKind::CharacterConstant,
        PTokenKind::LiteralString,
        PTokenKind::ParenLeft,
        PTokenKind::ParenRight,
        PTokenKind::Comma,
        PTokenKind::Punctuator,
        PTokenKind::Backslash,
        PTokenKind::Newline,
        PTokenKind::CommentSingle,
        PTokenKind::CommentMultiStart,
        PTokenKind::CommentMultiEnd,
        PTokenKind::Whitespace,
    ]
}

/// Whether a token of the kind that ends at `end` is the token at `i`: its
/// rule reaches `end`, no rule reaches farther, and none that is tried
/// before it reaches as far.
pub open spec fn is_longest(text: Seq<u8>, i: int, kind: PTokenKind, end: int) -> bool {
    &&& end > i
    &&& exists|k: int|
        {
            &&& 0 <= k < rules().len()
            &&& rules()[k] == kind
            &&& rule_end(kind, text, i) == end
            &&& forall|j: int|
                0 <= j < rules().len() ==> rule_end(#[trigger] rules()[j], text, i) <= end
            &&& forall|j: int| 0 <= j < k ==> rule_end(#[trigger] rules()[j], text, i) < end
        }
}

/// Whether no rule reaches anywhere from `i`.
pub open spec fn no_rule(text: Seq<u8>, i: int) -> bool {
    forall|j: int| 0 <= j < rules().len() ==> rule_end(#[trigger] rules()[j], text, i) <= i
}

/// An error token: the character at `i`, with all its bytes.
pub open spec fn error_end(text: Seq<u8>, i: int) -> int {
    run_end(text, i + 1, ByteClass::Continuation)
}

/// Whether the token at `i` is of the kind and ends at `end`.
pub open spec fn is_token_at(text: Seq<u8>, i: int, kind: PTokenKind, end: int) -> bool {
    if kind == PTokenKind::ErrorGeneric {
        no_rule(text, i) && end == error_end(text, i)
    } else {
        is_longest(text, i, kind, end)
    }
}

/// Whether the token at index `k` is the token of the text that begins
/// where the one before it ends, or at 0 if it is the first.
pub open spec fn token_fits(text: Seq<u8>, source: usize, tokens: Seq<PToken>, k: int) -> bool {
    &&& tokens[k].source == source
    &&& tokens[k].start == if k == 0 {
        0
    } else {
        tokens[k - 1].end as int
    }
    &&& is_token_at(text, tokens[k].start as int, tokens[k].kind, tokens[k].end as int)
}

/// Whether the tokens are the tokens of the text up to `upto`: each is the
/// token at the place where it begins, the first begins at 0, each other
/// one where the one before it ends, and the last ends at `upto`.
pub open spec fn tokenizes(text: Seq<u8>, source: usize, tokens: Seq<PToken>, upto: int) -> bool {
    &&& forall|k: int| 0 <= k < tokens.len() ==> #[trigger] token_fits(text, source, tokens, k)
    &&& upto == if tokens.len() == 0 {
        0
    } else {
        tokens.last().end as int
    }
}

/// The tokens of a text.
pub open spec fn tokens_of(text: Seq<u8>, source: usize) -> Seq<PToken> {
    choose|tokens: Seq<PToken>| tokenizes(text, source, tokens, text.len() as int)
}

} // verus!
