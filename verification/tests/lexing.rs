use std::rc::Rc;

use sacc::diagnostic::emitter::Emitter;
use sacc::diagnostic::session::Session;
use sacc::diagnostic::{
    Diagnostic, Handler, HandlerFlags, Level, SourceFile, SourceManager, Span,
};
use sacc::lexer::tokenizer::tokenize;
use sacc::lexer::{lex, lex_tokens, PToken, PTokenKind};
use sacc::preprocessor::phase2::phase2;

/// Keeps what it is given.
struct Collector {
    seen: Vec<Diagnostic>,
}

impl Emitter for Collector {
    fn emit_diagnostic(&mut self, diag: &Diagnostic) {
        self.seen.push(diag.clone());
    }
}

/// Creates a dummy session
fn dummy_sess(source: &str) -> (Session<Collector>, Rc<SourceFile>) {
    dummy_sess_with(source, false)
}

fn dummy_sess_with(source: &str, emit_warnings: bool) -> (Session<Collector>, Rc<SourceFile>) {
    let mut source_manager = SourceManager::new();
    let source_file = source_manager.create_dummy_file(source);
    let handler = Handler::with_emitter(
        HandlerFlags { colored_output: false, emit_warnings, quiet: true },
        Collector { seen: Vec::new() },
    );
    let session = Session::new(source_manager, handler);
    (session, source_file)
}

fn seen(session: &Session<Collector>) -> &Vec<Diagnostic> {
    &session.handler().emitter().seen
}

/// Checks if the tokens in the first Vec match the kinds provided by the second, skips any
/// whitespace tokens in the input
fn check_matches(src: Rc<SourceFile>, input: Vec<PToken>, reference: Vec<(PTokenKind, &'static str)>) {
    // Remove whitespace tokens for sanity
    let input: Vec<_> = input.into_iter().filter(|i| i.kind != PTokenKind::Whitespace).collect();

    println!("{:#?}", input);

    // Check if they are both the same size
    assert_eq!(input.len(), reference.len());

    // Check each element
    for (&token, (kind, text)) in input.iter().zip(reference) {
        assert_eq!(token.kind, kind);
        assert_eq!(src.span_to_string(&token.into()).unwrap(), text);
    }
}

// Lexes a header name (eg. <stdint.h>)
#[test]
fn lex_header_name() {
    let (mut sess, src) = dummy_sess("<stdint.h>");

    let input = lex(&mut sess, src.clone()).unwrap();

    // Sadly this is the best we can do for now
    let reference = vec![
        (PTokenKind::Punctuator, "<"),
        (PTokenKind::Identifier, "stdint"),
        (PTokenKind::Punctuator, "."),
        (PTokenKind::Identifier, "h"),
        (PTokenKind::Punctuator, ">"),
    ];

    check_matches(src, input, reference);
}

// Lexes various identifiers (eg. __foo__, f020202, etc.)
#[test]
fn lex_identifiers() {
    let (mut sess, src) = dummy_sess("__foo__ f020202 aWdawnaDa");

    let input = lex(&mut sess, src.clone()).unwrap();

    let reference = vec![
        (PTokenKind::Identifier, "__foo__"),
        (PTokenKind::Identifier, "f020202"),
        (PTokenKind::Identifier, "aWdawnaDa"),
    ];

    check_matches(src, input, reference);
}

// Lexes various "numbers" according to the preprocessor, both valid and invalid
#[test]
fn lex_numbers() {
    let (mut sess, src) =
        dummy_sess("02 230002 0x2f 0b0_0011 .23f 3.14e+ 3.14e+34 3p3 3.3.4.3.ep+-.3");

    let input = lex(&mut sess, src.clone()).unwrap();

    let reference = vec![
        (PTokenKind::Number, "02"),
        (PTokenKind::Number, "230002"),
        (PTokenKind::Number, "0x2f"),
        (PTokenKind::Number, "0b0_0011"),
        (PTokenKind::Number, ".23f"),
        (PTokenKind::Number, "3.14e+"),
        (PTokenKind::Number, "3.14e+34"),
        (PTokenKind::Number, "3p3"),
        (PTokenKind::Number, "3.3.4.3.ep+-.3"),
    ];

    check_matches(src, input, reference);
}

// Lexes various character constants, even those that are invalid such as ones that contain
// more than one character
#[test]
fn lex_characters() {
    let (mut sess, src) = dummy_sess("'y' '0' '\\'' '\\0' 'february'");

    let input = lex(&mut sess, src.clone()).unwrap();

    let reference = vec![
        (PTokenKind::CharacterConstant, "'y'"),
        (PTokenKind::CharacterConstant, "'0'"),
        (PTokenKind::CharacterConstant, "'\\''"),
        (PTokenKind::CharacterConstant, "'\\0'"),
        (PTokenKind::CharacterConstant, "'february'"),
    ];

    check_matches(src, input, reference);
}

// Lexes string literals
#[test]
fn lex_string_literals() {
    let (mut sess, src) =
        dummy_sess(r#" "february" "  has spaces " "021031d s \" " "why? \n" "s" "#);

    let input = lex(&mut sess, src.clone()).unwrap();

    let reference = vec![
        (PTokenKind::LiteralString, r#""february""#),
        (PTokenKind::LiteralString, r#""  has spaces ""#),
        (PTokenKind::LiteralString, r#""021031d s \" ""#),
        (PTokenKind::LiteralString, r#""why? \n""#),
        (PTokenKind::LiteralString, r#""s""#),
    ];

    check_matches(src, input, reference);
}

// Lexes all of the standard punctuators
#[test]
fn lex_punctuators() {
    let (mut sess, src) = dummy_sess(
        r#"( ) , [ ] { } . -> ++ -- & * + - ~ ! / % << >> < > <= >= == != ^ | && || ? : ; ... = *= /= %= += -= <<= >>= &= ^= |= # ## <: :> <% %> %: %:%: \"#,
    );

    let input = lex(&mut sess, src.clone()).unwrap();

    let reference = vec![
        (PTokenKind::ParenLeft, "("),
        (PTokenKind::ParenRight, ")"),
        (PTokenKind::Comma, ","),
        (PTokenKind::Punctuator, "["),
        (PTokenKind::Punctuator, "]"),
        (PTokenKind::Punctuator, "{"),
        (PTokenKind::Punctuator, "}"),
        (PTokenKind::Punctuator, "."),
        (PTokenKind::Punctuator, "->"),
        (PTokenKind::Punctuator, "++"),
        (PTokenKind::Punctuator, "--"),
        (PTokenKind::Punctuator, "&"),
        (PTokenKind::Punctuator, "*"),
        (PTokenKind::Punctuator, "+"),
        (PTokenKind::Punctuator, "-"),
        (PTokenKind::Punctuator, "~"),
        (PTokenKind::Punctuator, "!"),
        (PTokenKind::Punctuator, "/"),
        (PTokenKind::Punctuator, "%"),
        (PTokenKind::Punctuator, "<<"),
        (PTokenKind::Punctuator, ">>"),
        (PTokenKind::Punctuator, "<"),
        (PTokenKind::Punctuator, ">"),
        (PTokenKind::Punctuator, "<="),
        (PTokenKind::Punctuator, ">="),
        (PTokenKind::Punctuator, "=="),
        (PTokenKind::Punctuator, "!="),
        (PTokenKind::Punctuator, "^"),
        (PTokenKind::Punctuator, "|"),
        (PTokenKind::Punctuator, "&&"),
        (PTokenKind::Punctuator, "||"),
        (PTokenKind::Punctuator, "?"),
        (PTokenKind::Punctuator, ":"),
        (PTokenKind::Punctuator, ";"),
        (PTokenKind::Punctuator, "..."),
        (PTokenKind::Punctuator, "="),
        (PTokenKind::Punctuator, "*="),
        (PTokenKind::Punctuator, "/="),
        (PTokenKind::Punctuator, "%="),
        (PTokenKind::Punctuator, "+="),
        (PTokenKind::Punctuator, "-="),
        (PTokenKind::Punctuator, "<<="),
        (PTokenKind::Punctuator, ">>="),
        (PTokenKind::Punctuator, "&="),
        (PTokenKind::Punctuator, "^="),
        (PTokenKind::Punctuator, "|="),
        (PTokenKind::Punctuator, "#"),
        (PTokenKind::Punctuator, "##"),
        (PTokenKind::Punctuator, "<:"),
        (PTokenKind::Punctuator, ":>"),
        (PTokenKind::Punctuator, "<%"),
        (PTokenKind::Punctuator, "%>"),
        (PTokenKind::Punctuator, "%:"),
        (PTokenKind::Punctuator, "%:%:"),
        (PTokenKind::Backslash, "\\"),
    ];

    check_matches(src, input, reference);
}

#[test]
fn lex_comments() {
    let (mut sess, src) = dummy_sess(
        r#"// This is a single line comment
/*
 * This is a multi-line comment
 */"#,
    );

    let input = lex(&mut sess, src.clone()).unwrap();

    // NOTE: Multi-line comments are stripped during lexing, and therefore should not show up
    // here
    let reference = vec![
        (PTokenKind::CommentSingle, r#"// This is a single line comment"#),
        (PTokenKind::Newline, "\n"),
    ];

    check_matches(src, input, reference);
}

// Text that is no token makes the lexer fail
#[test]
fn lexer_generic_error() {
    let source = "$";

    let (mut sess, src) = dummy_sess(source);

    if let Ok(_) = lex(&mut sess, src) {
        panic!("Input should have generated GenericError");
    }
}

#[test]
fn lexer_reports_what_is_no_token() {
    let (mut sess, src) = dummy_sess("a $ b");
    assert_eq!(lex(&mut sess, src), Err(()));
    let seen = seen(&sess);
    assert_eq!(seen.len(), 1);
    assert_eq!(seen[0].level, Level::Error);
    assert_eq!(seen[0].message, "error lexing token `$`");
    assert_eq!(seen[0].primary, None);
    assert_eq!(seen[0].spans, vec![(Span::new(2, 3, 0), "invalid token found".to_string())]);
    assert!(seen[0].children.is_empty());
}

#[test]
fn error_token_is_one_character() {
    let text = "é$";
    let tokens = tokenize(text.as_bytes(), 7);
    assert_eq!(
        tokens,
        vec![
            PToken { kind: PTokenKind::ErrorGeneric, source: 7, start: 0, end: 2 },
            PToken { kind: PTokenKind::ErrorGeneric, source: 7, start: 2, end: 3 },
        ]
    );
}

#[test]
fn tokens_cover_the_text() {
    let text = "int main(void) { return L'a' + \"s\\\"\" /* c */ // d\r\n}\n";
    let tokens = tokenize(text.as_bytes(), 0);
    let mut at = 0;
    for token in &tokens {
        assert_eq!(token.start, at);
        assert!(token.end > token.start);
        at = token.end;
    }
    assert_eq!(at, text.len());
    assert!(tokens.iter().all(|t| t.kind != PTokenKind::ErrorGeneric));
}

#[test]
fn longest_rule_wins() {
    let kinds = |text: &str| -> Vec<(PTokenKind, usize)> {
        tokenize(text.as_bytes(), 0).iter().map(|t| (t.kind, t.end)).collect()
    };
    assert_eq!(kinds("L'a'"), vec![(PTokenKind::CharacterConstant, 4)]);
    assert_eq!(kinds("L\"a\""), vec![(PTokenKind::LiteralString, 4)]);
    assert_eq!(kinds("Lx"), vec![(PTokenKind::Identifier, 2)]);
    assert_eq!(kinds(".5"), vec![(PTokenKind::Number, 2)]);
    assert_eq!(kinds("..."), vec![(PTokenKind::Punctuator, 3)]);
    assert_eq!(kinds(".."), vec![(PTokenKind::Punctuator, 1), (PTokenKind::Punctuator, 2)]);
    assert_eq!(kinds("1-2"), vec![(PTokenKind::Number, 3)]);
    assert_eq!(kinds("/="), vec![(PTokenKind::Punctuator, 2)]);
    assert_eq!(kinds("//x"), vec![(PTokenKind::CommentSingle, 3)]);
    assert_eq!(kinds("/*"), vec![(PTokenKind::CommentMultiStart, 2)]);
    assert_eq!(kinds("*/"), vec![(PTokenKind::CommentMultiEnd, 2)]);
    assert_eq!(kinds("*="), vec![(PTokenKind::Punctuator, 2)]);
    assert_eq!(kinds("\r\n"), vec![(PTokenKind::Newline, 2)]);
    assert_eq!(kinds("\n\r"), vec![(PTokenKind::Newline, 1), (PTokenKind::Newline, 2)]);
    assert_eq!(kinds(" \t "), vec![(PTokenKind::Whitespace, 3)]);
    assert_eq!(kinds("%:%"), vec![(PTokenKind::Punctuator, 2), (PTokenKind::Punctuator, 3)]);
    // a character constant holds something, a string need not
    assert_eq!(kinds("\"\""), vec![(PTokenKind::LiteralString, 2)]);
    assert_eq!(
        kinds("''"),
        vec![(PTokenKind::ErrorGeneric, 1), (PTokenKind::ErrorGeneric, 2)]
    );
    // a literal that does not end is no literal
    assert_eq!(
        kinds("\"a"),
        vec![(PTokenKind::ErrorGeneric, 1), (PTokenKind::Identifier, 2)]
    );
    assert_eq!(kinds("'a\\"), vec![
        (PTokenKind::ErrorGeneric, 1),
        (PTokenKind::Identifier, 2),
        (PTokenKind::Backslash, 3)
    ]);
}

#[test]
fn nested_block_comment_is_warned_about() {
    let (mut sess, src) = dummy_sess_with("/* a /* b */ c", true);
    let tokens = lex(&mut sess, src).unwrap();
    let kinds: Vec<_> = tokens.iter().map(|t| t.kind).collect();
    assert_eq!(kinds, vec![PTokenKind::Whitespace, PTokenKind::Identifier]);
    let seen = seen(&sess);
    assert_eq!(seen.len(), 1);
    assert_eq!(seen[0].level, Level::Warning);
    assert_eq!(seen[0].message, "`/*` within block comment");
    // the warning points at the comment that is open
    assert_eq!(seen[0].primary, Some(Span::new(0, 2, 0)));
    assert_eq!(seen[0].children.len(), 1);
    assert_eq!(seen[0].children[0].level, Level::Note);
    assert_eq!(seen[0].children[0].message, "block comments cannot be nested");
}

#[test]
fn warnings_can_be_switched_off() {
    let (mut sess, src) = dummy_sess_with("/* a /* b */ c", false);
    assert!(lex(&mut sess, src).is_ok());
    assert!(seen(&sess).is_empty());
}

#[test]
fn lone_comment_terminator_is_an_error() {
    let (mut sess, src) = dummy_sess("a */");
    assert_eq!(lex(&mut sess, src), Err(()));
    let seen = seen(&sess);
    assert_eq!(seen.len(), 1);
    assert_eq!(seen[0].message, "unexpected token `*/`");
    assert_eq!(
        seen[0].spans,
        vec![(Span::new(2, 4, 0), "lone block comment terminator".to_string())]
    );
}

#[test]
fn open_block_comment_is_an_error() {
    let (mut sess, src) = dummy_sess("a /* b");
    assert_eq!(lex(&mut sess, src), Err(()));
    let seen = seen(&sess);
    assert_eq!(seen.len(), 1);
    assert_eq!(seen[0].level, Level::Error);
    assert_eq!(seen[0].message, "Unterminated block comment begins here");
    assert_eq!(seen[0].primary, Some(Span::new(2, 4, 0)));
}

#[test]
fn lex_tokens_on_given_tokens() {
    let (mut sess, _src) = dummy_sess("ab");
    let token = |kind, start, end| PToken { kind, source: 0, start, end };
    let raw = vec![
        token(PTokenKind::Identifier, 0, 1),
        token(PTokenKind::CommentMultiStart, 1, 1),
        token(PTokenKind::Identifier, 1, 2),
        token(PTokenKind::CommentMultiEnd, 2, 2),
        token(PTokenKind::Newline, 2, 2),
    ];
    let kept = lex_tokens(&mut sess, &raw).unwrap();
    assert_eq!(kept, vec![raw[0], raw[4]]);
}

#[test]
fn phase2_splices_lines() {
    let (mut sess, src) = dummy_sess("a \\\nb // c\nd");
    let tokens = lex(&mut sess, src.clone()).unwrap();
    let tokens = phase2(tokens, &mut sess).unwrap();
    let texts: Vec<String> =
        tokens.iter().map(|t| src.span_to_string(&Span::from(*t)).unwrap()).collect();
    assert_eq!(texts, vec!["a", " ", "b", " ", "\n", "d"]);
    assert!(seen(&sess).is_empty());
}

#[test]
fn phase2_warns_of_whitespace_behind_backslash() {
    let (mut sess, src) = dummy_sess_with("a\\ \nb", true);
    let tokens = lex(&mut sess, src.clone()).unwrap();
    let tokens = phase2(tokens, &mut sess).unwrap();
    let kinds: Vec<_> = tokens.iter().map(|t| t.kind).collect();
    assert_eq!(kinds, vec![PTokenKind::Identifier, PTokenKind::Identifier]);
    let seen = seen(&sess);
    assert_eq!(seen.len(), 1);
    assert_eq!(seen[0].level, Level::Warning);
    assert_eq!(seen[0].message, "whitespace before newline after `\\`");
    assert_eq!(seen[0].primary, Some(Span::new(2, 3, 0)));
}

#[test]
fn phase2_wants_a_newline_behind_backslash() {
    let (mut sess, src) = dummy_sess("a\\b c");
    let tokens = lex(&mut sess, src.clone()).unwrap();
    assert_eq!(phase2(tokens, &mut sess), Err(()));
    let seen = seen(&sess);
    assert_eq!(seen.len(), 1);
    assert_eq!(seen[0].message, "found unexpected token `b`");
    assert_eq!(
        seen[0].spans,
        vec![(Span::new(2, 3, 0), "expected newline after `\\`, found this".to_string())]
    );
}

#[test]
fn phase2_backslash_at_the_end() {
    let (mut sess, src) = dummy_sess("a\\");
    let tokens = lex(&mut sess, src.clone()).unwrap();
    assert_eq!(phase2(tokens, &mut sess), Err(()));
    let seen = seen(&sess);
    assert_eq!(seen.len(), 1);
    assert_eq!(seen[0].message, "unexpected end of file");
    assert_eq!(seen[0].spans, vec![(Span::new(1, 2, 0), "after backslash".to_string())]);
}
