//! What holds of the grammar: each text has its tokens and no others, and
//! the tokens of a text lie between characters.
use vstd::prelude::*;
use vstd::utf8::{
    encode_utf8, encode_utf8_valid_utf8, is_char_boundary,
    is_char_boundary_iff_not_is_continuation_byte, is_char_boundary_start_end_of_seq,
    pop_first_scalar, valid_first_scalar, valid_utf8, valid_utf8_split,
};

use super::grammar::{
    error_end, in_class, is_token_at, quote_close, quote_place, rule_end, rules, run_end,
    token_fits, tokenizes, tokens_of, ByteClass,
};
use super::token::{PToken, PTokenKind};
use crate::diagnostic::source_manager::text_between;

verus! {

/// A run ends at or behind the place where it begins, and inside the text
/// if it begins there. Its bytes are of the class, and the byte behind it is
/// not.
pub proof fn lemma_run_end(text: Seq<u8>, i: int, class: ByteClass)
    ensures
        i <= run_end(text, i, class),
        0 <= i <= text.len() ==> run_end(text, i, class) <= text.len(),
        0 <= run_end(text, i, class) < text.len() ==> !in_class(
            class,
            text[run_end(text, i, class)],
        ),
        forall|j: int|
            0 <= i <= j < run_end(text, i, class) ==> in_class(class, #[trigger] text[j]),
    decreases text.len() - i,
{
    if 0 <= i < text.len() && in_class(class, text[i]) {
        lemma_run_end(text, i + 1, class);
    }
}

/// No rule reaches behind the text.
pub proof fn lemma_rule_end(kind: PTokenKind, text: Seq<u8>, i: int)
    requires
        0 <= i < text.len(),
    ensures
        i <= rule_end(kind, text, i) <= text.len(),
{
    lemma_run_end(text, i, ByteClass::Blank);
    lemma_run_end(text, i + 1, ByteClass::Identifier);
    lemma_run_end(text, i + 1, ByteClass::Number);
    lemma_run_end(text, i + 2, ByteClass::Number);
    lemma_run_end(text, i + 2, ByteClass::Comment);
    lemma_quote_close(text, quote_place(text, i) + 1, '\'' as u8);
    lemma_quote_close(text, quote_place(text, i) + 1, '"' as u8);
}

/// Among the first `n` rules there is one that reaches farthest and before
/// which none reaches as far, unless none of them reaches anywhere.
proof fn lemma_farthest(text: Seq<u8>, i: int, n: int) -> (r: (int, int))
    requires
        0 <= i < text.len(),
        0 <= n <= rules().len(),
    ensures
        i <= r.1 <= text.len(),
        forall|j: int| 0 <= j < n ==> rule_end(#[trigger] rules()[j], text, i) <= r.1,
        r.1 > i ==> {
            &&& 0 <= r.0 < n
            &&& rule_end(rules()[r.0], text, i) == r.1
            &&& forall|j: int| 0 <= j < r.0 ==> rule_end(#[trigger] rules()[j], text, i) < r.1
        },
    decreases n,
{
    if n == 0 {
        (0, i)
    } else {
        let before = lemma_farthest(text, i, n - 1);
        let reach = rule_end(rules()[n - 1], text, i);
        lemma_rule_end(rules()[n - 1], text, i);
        if reach > before.1 {
            (n - 1, reach)
        } else {
            before
        }
    }
}

/// At each place of a text there is a token.
pub proof fn lemma_token_exists(text: Seq<u8>, i: int) -> (r: (PTokenKind, int))
    requires
        0 <= i < text.len(),
    ensures
        is_token_at(text, i, r.0, r.1),
        i < r.1 <= text.len(),
{
    let best = lemma_farthest(text, i, rules().len() as int);
    if best.1 > i {
        (rules()[best.0], best.1)
    } else {
        lemma_run_end(text, i + 1, ByteClass::Continuation);
        (PTokenKind::ErrorGeneric, error_end(text, i))
    }
}

proof fn lemma_tokens_exist_from(text: Seq<u8>, source: usize, tokens: Seq<PToken>, i: int)
    requires
        0 <= i <= text.len() <= usize::MAX,
        tokenizes(text, source, tokens, i),
    ensures
        exists|all: Seq<PToken>| tokenizes(text, source, all, text.len() as int),
    decreases text.len() - i,
{
    if i < text.len() {
        let (kind, end) = lemma_token_exists(text, i);
        let token = PToken { kind, source, start: i as usize, end: end as usize };
        let more = tokens.push(token);
        assert forall|k: int| 0 <= k < more.len() implies #[trigger] token_fits(
            text,
            source,
            more,
            k,
        ) by {
            if k < tokens.len() {
                assert(token_fits(text, source, tokens, k));
            }
        }
        lemma_tokens_exist_from(text, source, more, end);
    }
}

/// A text has tokens: `tokens_of` names them.
pub proof fn lemma_tokens_of(text: Seq<u8>, source: usize)
    requires
        text.len() <= usize::MAX,
    ensures
        tokenizes(text, source, tokens_of(text, source), text.len() as int),
{
    lemma_tokens_exist_from(text, source, Seq::empty(), 0);
}

/// There is one token at a place and no other.
pub proof fn lemma_token_unique(
    text: Seq<u8>,
    i: int,
    kind: PTokenKind,
    end: int,
    other_kind: PTokenKind,
    other_end: int,
)
    requires
        is_token_at(text, i, kind, end),
        is_token_at(text, i, other_kind, other_end),
    ensures
        kind == other_kind,
        end == other_end,
{
    if kind != PTokenKind::ErrorGeneric && other_kind != PTokenKind::ErrorGeneric {
        let k = choose|k: int|
            {
                &&& 0 <= k < rules().len()
                &&& rules()[k] == kind
                &&& rule_end(kind, text, i) == end
                &&& forall|j: int|
                    0 <= j < rules().len() ==> rule_end(#[trigger] rules()[j], text, i) <= end
                &&& forall|j: int| 0 <= j < k ==> rule_end(#[trigger] rules()[j], text, i) < end
            };
        let m = choose|m: int|
            {
                &&& 0 <= m < rules().len()
                &&& rules()[m] == other_kind
                &&& rule_end(other_kind, text, i) == other_end
                &&& forall|j: int|
                    0 <= j < rules().len() ==> rule_end(#[trigger] rules()[j], text, i)
                        <= other_end
                &&& forall|j: int|
                    0 <= j < m ==> rule_end(#[trigger] rules()[j], text, i) < other_end
            };
        assert(rule_end(rules()[k], text, i) <= other_end);
        assert(rule_end(rules()[m], text, i) <= end);
        if k < m {
            assert(rule_end(rules()[k], text, i) < other_end);
        }
        if m < k {
            assert(rule_end(rules()[m], text, i) < end);
        }
    } else if kind != PTokenKind::ErrorGeneric {
        let k = choose|k: int|
            0 <= k < rules().len() && rules()[k] == kind && rule_end(kind, text, i) == end;
        assert(rule_end(rules()[k], text, i) <= i);
    } else if other_kind != PTokenKind::ErrorGeneric {
        let m = choose|m: int|
            0 <= m < rules().len() && rules()[m] == other_kind && rule_end(other_kind, text, i)
                == other_end;
        assert(rule_end(rules()[m], text, i) <= i);
    }
}

/// A token is not empty, and a later token of a text ends behind an earlier
/// one.
pub proof fn lemma_tokens_advance(
    text: Seq<u8>,
    source: usize,
    tokens: Seq<PToken>,
    upto: int,
    i: int,
    j: int,
)
    requires
        tokenizes(text, source, tokens, upto),
        0 <= i <= j < tokens.len(),
    ensures
        tokens[i].start < tokens[i].end,
        i < j ==> tokens[i].end < tokens[j].end,
        tokens[j].end <= upto,
    decreases tokens.len() - i,
{
    assert(token_fits(text, source, tokens, i));
    lemma_run_end(text, tokens[i].start + 1, ByteClass::Continuation);
    if i < j {
        assert(token_fits(text, source, tokens, i + 1));
        lemma_tokens_advance(text, source, tokens, upto, i + 1, j);
    } else if j + 1 < tokens.len() {
        assert(token_fits(text, source, tokens, j + 1));
        lemma_tokens_advance(text, source, tokens, upto, j + 1, tokens.len() - 1);
    }
}

proof fn lemma_tokens_agree(
    text: Seq<u8>,
    source: usize,
    a: Seq<PToken>,
    a_upto: int,
    b: Seq<PToken>,
    b_upto: int,
    k: int,
)
    requires
        tokenizes(text, source, a, a_upto),
        tokenizes(text, source, b, b_upto),
        0 <= k < a.len(),
        k < b.len(),
    ensures
        a[k] == b[k],
    decreases k,
{
    assert(token_fits(text, source, a, k));
    assert(token_fits(text, source, b, k));
    if k > 0 {
        lemma_tokens_agree(text, source, a, a_upto, b, b_upto, k - 1);
    }
    lemma_token_unique(
        text,
        a[k].start as int,
        a[k].kind,
        a[k].end as int,
        b[k].kind,
        b[k].end as int,
    );
}

/// A text has its tokens and no others.
pub proof fn lemma_tokens_unique(
    text: Seq<u8>,
    source: usize,
    a: Seq<PToken>,
    b: Seq<PToken>,
    upto: int,
)
    requires
        tokenizes(text, source, a, upto),
        tokenizes(text, source, b, upto),
    ensures
        a == b,
{
    if a.len() < b.len() {
        let n = a.len() as int;
        assert(token_fits(text, source, b, n));
        if n > 0 {
            lemma_tokens_agree(text, source, a, upto, b, upto, n - 1);
        }
        lemma_tokens_advance(text, source, b, upto, n, n);
    } else if b.len() < a.len() {
        let n = b.len() as int;
        assert(token_fits(text, source, a, n));
        if n > 0 {
            lemma_tokens_agree(text, source, a, upto, b, upto, n - 1);
        }
        lemma_tokens_advance(text, source, a, upto, n, n);
    } else {
        assert forall|k: int| 0 <= k < a.len() implies a[k] == b[k] by {
            lemma_tokens_agree(text, source, a, upto, b, upto, k);
        }
        assert(a =~= b);
    }
}

/// Quoted text ends behind a quote, inside the text.
pub proof fn lemma_quote_close(text: Seq<u8>, j: int, quote: u8)
    ensures
        quote_close(text, j, quote) matches Some(end) ==> j < end <= text.len() && text[end - 1]
            == quote,
    decreases text.len() - j,
{
    if 0 <= j < text.len() && text[j] != quote {
        if text[j] == '\\' as u8 {
            if j + 1 < text.len() {
                lemma_quote_close(text, j + 2, quote);
            }
        } else {
            lemma_quote_close(text, j + 1, quote);
        }
    }
}

/// In valid UTF-8 a byte below 0x80 is a character of its own: a character
/// begins at it and another one, or nothing, behind it.
pub proof fn lemma_after_ascii(bytes: Seq<u8>, p: int)
    requires
        valid_utf8(bytes),
        0 <= p < bytes.len(),
        bytes[p] < 0x80,
    ensures
        is_char_boundary(bytes, p),
        is_char_boundary(bytes, p + 1),
{
    is_char_boundary_iff_not_is_continuation_byte(bytes, p);
    is_char_boundary_start_end_of_seq(bytes);
    valid_utf8_split(bytes, p);
    let suffix = bytes.subrange(p, bytes.len() as int);
    if p + 1 < bytes.len() {
        let rest = pop_first_scalar(suffix);
        assert(suffix[0] == bytes[p]);
        assert(valid_first_scalar(suffix) && valid_utf8(rest));
        assert(rest =~= bytes.subrange(p + 1, bytes.len() as int));
        assert(valid_first_scalar(rest));
        assert(rest[0] == bytes[p + 1]);
        is_char_boundary_iff_not_is_continuation_byte(bytes, p + 1);
    }
}

/// In valid UTF-8 a character begins wherever a byte stands that does not
/// go on with a character, and at the end.
pub proof fn lemma_boundary(bytes: Seq<u8>, p: int)
    requires
        valid_utf8(bytes),
        0 <= p <= bytes.len(),
        p < bytes.len() ==> !in_class(ByteClass::Continuation, bytes[p]),
    ensures
        is_char_boundary(bytes, p),
{
    is_char_boundary_start_end_of_seq(bytes);
    if p < bytes.len() {
        is_char_boundary_iff_not_is_continuation_byte(bytes, p);
    }
}

/// A token of valid UTF-8 is not empty, lies in the text and ends where a
/// character ends.
pub proof fn lemma_token_end(text: Seq<u8>, i: int, kind: PTokenKind, end: int)
    requires
        valid_utf8(text),
        0 <= i < text.len(),
        is_token_at(text, i, kind, end),
    ensures
        i < end <= text.len(),
        is_char_boundary(text, end),
{
    lemma_run_end(text, i, ByteClass::Blank);
    lemma_run_end(text, i + 1, ByteClass::Identifier);
    lemma_run_end(text, i + 1, ByteClass::Number);
    lemma_run_end(text, i + 2, ByteClass::Number);
    lemma_run_end(text, i + 2, ByteClass::Comment);
    lemma_run_end(text, i + 1, ByteClass::Continuation);
    lemma_quote_close(text, quote_place(text, i) + 1, '\'' as u8);
    lemma_quote_close(text, quote_place(text, i) + 1, '"' as u8);
    if kind == PTokenKind::ErrorGeneric || kind == PTokenKind::CommentSingle {
        lemma_boundary(text, end);
    } else {
        assert(rule_end(kind, text, i) == end);
        assert(text[end - 1] < 0x80);
        lemma_after_ascii(text, end - 1);
    }
}

/// The tokens of a text that is valid UTF-8 lie in the text, and each begins
/// and ends where a character does.
pub proof fn lemma_tokens_on_boundaries(
    text: Seq<u8>,
    source: usize,
    tokens: Seq<PToken>,
    upto: int,
    k: int,
)
    requires
        valid_utf8(text),
        tokenizes(text, source, tokens, upto),
        upto <= text.len(),
        0 <= k < tokens.len(),
    ensures
        0 <= tokens[k].start < tokens[k].end <= text.len(),
        is_char_boundary(text, tokens[k].start as int),
        is_char_boundary(text, tokens[k].end as int),
    decreases k,
{
    assert(token_fits(text, source, tokens, k));
    lemma_tokens_advance(text, source, tokens, upto, k, k);
    is_char_boundary_start_end_of_seq(text);
    if k > 0 {
        lemma_tokens_on_boundaries(text, source, tokens, upto, k - 1);
    }
    lemma_token_end(text, tokens[k].start as int, tokens[k].kind, tokens[k].end as int);
}

/// Each token of a text has its piece of the text: the characters between
/// its two ends.
pub proof fn lemma_tokens_have_text(
    chars: Seq<char>,
    source: usize,
    tokens: Seq<PToken>,
    k: int,
)
    requires
        tokenizes(encode_utf8(chars), source, tokens, encode_utf8(chars).len() as int),
        0 <= k < tokens.len(),
    ensures
        text_between(chars, tokens[k].start as int, tokens[k].end as int).is_some(),
{
    let text = encode_utf8(chars);
    encode_utf8_valid_utf8(chars);
    lemma_tokens_on_boundaries(text, source, tokens, text.len() as int, k);
}

} // verus!
