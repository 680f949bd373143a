//! The tokenizer: the grammar as a program.
use vstd::prelude::*;

use super::grammar::{
    are, byte_at, character_end, in_class, is_digit, is_letter, is_punctuator1, is_punctuator2,
    is_punctuator3, is_punctuator4, is_token_at, pair_at, punctuator_end, quote_close, rule_end,
    rules, run_end, string_end, token_fits, tokenizes, tokens_of, ByteClass,
};
use super::laws::lemma_tokens_unique;
use super::token::{PToken, PTokenKind};

verus! {

fn letter(b: u8) -> (r: bool)
    ensures
        r == is_letter(b),
{
    b == '_' as u8 || ('a' as u8 <= b && b <= 'z' as u8) || ('A' as u8 <= b && b <= 'Z' as u8)
}

fn digit(b: u8) -> (r: bool)
    ensures
        r == is_digit(b),
{
    '0' as u8 <= b && b <= '9' as u8
}

fn belongs(class: ByteClass, b: u8) -> (r: bool)
    ensures
        r == in_class(class, b),
{
    match class {
        ByteClass::Identifier => letter(b) || digit(b),
        ByteClass::Number => letter(b) || digit(b) || b == '-' as u8 || b == '+' as u8 || b
            == '.' as u8,
        ByteClass::Blank => b == ' ' as u8 || b == '\t' as u8,
        ByteClass::Comment => b != '\n' as u8,
        ByteClass::Continuation => 0x80 <= b && b < 0xC0,
    }
}

fn scan_run(text: &[u8], from: usize, class: ByteClass) -> (end: usize)
    requires
        from <= text@.len(),
    ensures
        end == run_end(text@, from as int, class),
        from <= end <= text@.len(),
{
    let mut j: usize = from;
    while j < text.len() && belongs(class, text[j])
        invariant
            from <= j <= text@.len(),
            run_end(text@, from as int, class) == run_end(text@, j as int, class),
        decreases text@.len() - j,
    {
        j += 1;
    }
    j
}

fn scan_quote(text: &[u8], from: usize, quote: u8) -> (r: Option<usize>)
    requires
        from <= text@.len(),
    ensures
        match r {
            Some(end) => quote_close(text@, from as int, quote) == Some(end as int) && from < end
                <= text@.len(),
            None => quote_close(text@, from as int, quote).is_none(),
        },
{
    let mut j: usize = from;
    while j < text.len()
        invariant
            from <= j <= text@.len(),
            quote_close(text@, from as int, quote) == quote_close(text@, j as int, quote),
        decreases text@.len() - j,
    {
        if text[j] == quote {
            return Some(j + 1);
        } else if text[j] == '\\' as u8 {
            if j + 1 < text.len() {
                j += 2;
            } else {
                return None;
            }
        } else {
            j += 1;
        }
    }
    None
}

fn has(text: &[u8], i: usize, a: char) -> (r: bool)
    requires
        a as u32 <= 127,
    ensures
        r == byte_at(text@, i as int, a),
{
    i < text.len() && text[i] == a as u8
}

fn has_pair(text: &[u8], i: usize, a: char, b: char) -> (r: bool)
    requires
        a as u32 <= 127,
        b as u32 <= 127,
    ensures
        r == pair_at(text@, i as int, a, b),
{
    i < text.len() && text.len() - i > 1 && text[i] == a as u8 && text[i + 1] == b as u8
}

fn punctuator1(a: u8) -> (r: bool)
    ensures
        r == is_punctuator1(a),
{
    a == '[' as u8 || a == ']' as u8 || a == '{' as u8 || a == '}' as u8 || a == '.' as u8 || a
        == '&' as u8 || a == '*' as u8 || a == '+' as u8 || a == '-' as u8 || a == '~' as u8 || a
        == '!' as u8 || a == '/' as u8 || a == '%' as u8 || a == '<' as u8 || a == '>' as u8 || a
        == '^' as u8 || a == '|' as u8 || a == '?' as u8 || a == ':' as u8 || a == ';' as u8 || a
        == '=' as u8 || a == '#' as u8
}

fn both(a: u8, b: u8, x: char, y: char) -> (r: bool)
    requires
        x as u32 <= 127,
        y as u32 <= 127,
    ensures
        r == are(a, b, x, y),
{
    a == x as u8 && b == y as u8
}

fn punctuator2(a: u8, b: u8) -> (r: bool)
    ensures
        r == is_punctuator2(a, b),
{
    both(a, b, '-', '>') || both(a, b, '+', '+') || both(a, b, '-', '-') || both(a, b, '<', '<')
        || both(a, b, '>', '>') || both(a, b, '<', '=') || both(a, b, '>', '=') || both(
        a,
        b,
        '=',
        '=',
    ) || both(a, b, '!', '=') || both(a, b, '&', '&') || both(a, b, '|', '|') || both(
        a,
        b,
        '*',
        '=',
    ) || both(a, b, '/', '=') || both(a, b, '%', '=') || both(a, b, '+', '=') || both(
        a,
        b,
        '-',
        '=',
    ) || both(a, b, '&', '=') || both(a, b, '^', '=') || both(a, b, '|', '=') || both(
        a,
        b,
        '#',
        '#',
    ) || both(a, b, '<', ':') || both(a, b, ':', '>') || both(a, b, '<', '%') || both(
        a,
        b,
        '%',
        '>',
    ) || both(a, b, '%', ':')
}

fn punctuator3(a: u8, b: u8, c: u8) -> (r: bool)
    ensures
        r == is_punctuator3(a, b, c),
{
    (both(a, b, '.', '.') && c == '.' as u8) || (both(a, b, '<', '<') && c == '=' as u8) || (both(
        a,
        b,
        '>',
        '>',
    ) && c == '=' as u8)
}

fn punctuator4(a: u8, b: u8, c: u8, d: u8) -> (r: bool)
    ensures
        r == is_punctuator4(a, b, c, d),
{
    both(a, b, '%', ':') && both(c, d, '%', ':')
}

fn scan_punctuator(text: &[u8], i: usize) -> (end: usize)
    requires
        i < text@.len(),
    ensures
        end == punctuator_end(text@, i as int),
        i <= end <= text@.len(),
{
    let left: usize = text.len() - i;
    if left >= 4 && punctuator4(text[i], text[i + 1], text[i + 2], text[i + 3]) {
        i + 4
    } else if left >= 3 && punctuator3(text[i], text[i + 1], text[i + 2]) {
        i + 3
    } else if left >= 2 && punctuator2(text[i], text[i + 1]) {
        i + 2
    } else if punctuator1(text[i]) {
        i + 1
    } else {
        i
    }
}

fn scan_literal(text: &[u8], i: usize, quote: char, filled: bool) -> (end: usize)
    requires
        i < text@.len(),
        quote == '\'' || quote == '"',
        filled == (quote == '\''),
    ensures
        end == if quote == '\'' {
            character_end(text@, i as int)
        } else {
            string_end(text@, i as int)
        },
        i <= end <= text@.len(),
{
    let len: usize = text.len();
    let q: usize = if has(text, i, 'L') {
        i + 1
    } else {
        i
    };
    if has(text, q, quote) && !(filled && has(text, q + 1, quote)) {
        match scan_quote(text, q + 1, quote as u8) {
            Some(end) => end,
            None => i,
        }
    } else {
        i
    }
}

/// How far a token of the kind reaches from `i`.
fn scan_rule(kind: PTokenKind, text: &[u8], i: usize) -> (end: usize)
    requires
        i < text@.len(),
    ensures
        end == rule_end(kind, text@, i as int),
        i <= end <= text@.len(),
{
    let len: usize = text.len();
    match kind {
        PTokenKind::Identifier => if letter(text[i]) {
            scan_run(text, i + 1, ByteClass::Identifier)
        } else {
            i
        },
        PTokenKind::Number => if digit(text[i]) {
            scan_run(text, i + 1, ByteClass::Number)
        } else if has(text, i, '.') && text.len() - i > 1 && digit(text[i + 1]) {
            scan_run(text, i + 2, ByteClass::Number)
        } else {
            i
        },
        PTokenKind::CharacterConstant => scan_literal(text, i, '\'', true),
        PTokenKind::LiteralString => scan_literal(text, i, '"', false),
        PTokenKind::ParenLeft => if has(text, i, '(') {
            i + 1
        } else {
            i
        },
        PTokenKind::ParenRight => if has(text, i, ')') {
            i + 1
        } else {
            i
        },
        PTokenKind::Comma => if has(text, i, ',') {
            i + 1
        } else {
            i
        },
        PTokenKind::Punctuator => scan_punctuator(text, i),
        PTokenKind::Backslash => if has(text, i, '\\') {
            i + 1
        } else {
            i
        },
        PTokenKind::Newline => if has_pair(text, i, '\r', '\n') {
            i + 2
        } else if has(text, i, '\r') || has(text, i, '\n') {
            i + 1
        } else {
            i
        },
        PTokenKind::CommentSingle => if has_pair(text, i, '/', '/') {
            scan_run(text, i + 2, ByteClass::Comment)
        } else {
            i
        },
        PTokenKind::CommentMultiStart => if has_pair(text, i, '/', '*') {
            i + 2
        } else {
            i
        },
        PTokenKind::CommentMultiEnd => if has_pair(text, i, '*', '/') {
            i + 2
        } else {
            i
        },
        PTokenKind::Whitespace => scan_run(text, i, ByteClass::Blank),
        PTokenKind::ErrorGeneric => i,
    }
}

/// How many kinds have a rule.
pub const RULES: usize = 14;

fn rule(k: usize) -> (kind: PTokenKind)
    requires
        k < RULES,
    ensures
        kind == rules()[k as int],
        rules().len() == RULES,
{
    if k == 0 {
        PTokenKind::Identifier
    } else if k == 1 {
        PTokenKind::Number
    } else if k == 2 {
        PTokenKind::CharacterConstant
    } else if k == 3 {
        PTokenKind::LiteralString
    } else if k == 4 {
        PTokenKind::ParenLeft
    } else if k == 5 {
        PTokenKind::ParenRight
    } else if k == 6 {
        PTokenKind::Comma
    } else if k == 7 {
        PTokenKind::Punctuator
    } else if k == 8 {
        PTokenKind::Backslash
    } else if k == 9 {
        PTokenKind::Newline
    } else if k == 10 {
        PTokenKind::CommentSingle
    } else if k == 11 {
        PTokenKind::CommentMultiStart
    } else if k == 12 {
        PTokenKind::CommentMultiEnd
    } else {
        PTokenKind::Whitespace
    }
}

/// The token at `i`: its kind, and where it ends.
pub fn next_token(text: &[u8], i: usize) -> (r: (PTokenKind, usize))
    requires
        i < text@.len(),
    ensures
        is_token_at(text@, i as int, r.0, r.1 as int),
        i < r.1 <= text@.len(),
{
    let len: usize = text.len();
    let mut kind = PTokenKind::ErrorGeneric;
    let mut end: usize = i;
    let ghost mut at: int = 0;
    let mut k: usize = 0;
    while k < RULES
        invariant
            k <= RULES,
            rules().len() == RULES,
            i < text@.len(),
            i <= end <= text@.len(),
            forall|j: int| 0 <= j < k ==> rule_end(#[trigger] rules()[j], text@, i as int) <= end,
            end == i ==> kind == PTokenKind::ErrorGeneric,
            end > i ==> {
                &&& 0 <= at < k
                &&& rules()[at] == kind
                &&& rule_end(kind, text@, i as int) == end
                &&& forall|j: int|
                    0 <= j < at ==> rule_end(#[trigger] rules()[j], text@, i as int) < end
            },
        decreases RULES - k,
    {
        let tried = rule(k);
        let reach = scan_rule(tried, text, i);
        if reach > end {
            kind = tried;
            end = reach;
            proof {
                at = k as int;
            }
        }
        k += 1;
    }
    if end > i {
        assert(kind != PTokenKind::ErrorGeneric) by {
            assert(rule_end(PTokenKind::ErrorGeneric, text@, i as int) == i);
        }
        (kind, end)
    } else {
        (PTokenKind::ErrorGeneric, scan_run(text, i + 1, ByteClass::Continuation))
    }
}

/// The tokens of the text, in order. They cover the text without a gap.
pub fn tokenize(text: &[u8], source: usize) -> (tokens: Vec<PToken>)
    ensures
        tokenizes(text@, source, tokens@, text@.len() as int),
        tokens@ == tokens_of(text@, source),
{
    let mut tokens: Vec<PToken> = Vec::new();
    let mut i: usize = 0;
    while i < text.len()
        invariant
            i <= text@.len(),
            tokenizes(text@, source, tokens@, i as int),
        decreases text@.len() - i,
    {
        let (kind, end) = next_token(text, i);
        let ghost before = tokens@;
        tokens.push(PToken { kind, source, start: i, end });
        proof {
            assert forall|k: int| 0 <= k < tokens@.len() implies #[trigger] token_fits(
                text@,
                source,
                tokens@,
                k,
            ) by {
                if k < before.len() {
                    assert(token_fits(text@, source, before, k));
                }
            }
        }
        i = end;
    }
    proof {
        lemma_tokens_unique(
            text@,
            source,
            tokens@,
            tokens_of(text@, source),
            text@.len() as int,
        );
    }
    tokens
}

} // verus!
