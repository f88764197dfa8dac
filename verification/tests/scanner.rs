use byte_core::lex::scanner::{Scanner, ScannerError};
use byte_core::lex::token::{Directive, TokenKind, TokenValue};
use byte_core::opcode::Mnemonic;

fn kinds_of(source: &str) -> Vec<TokenKind> {
    let mut scanner = Scanner::new(source);
    let mut kinds = Vec::new();
    loop {
        let t = scanner.scan_token().unwrap();
        if t.eof() {
            return kinds;
        }
        kinds.push(t.kind);
    }
}

#[test]
fn punctuation_tokens() {
    assert_eq!(
        kinds_of("( ) , : # + - / *"),
        vec![
            TokenKind::OpenParen,
            TokenKind::CloseParen,
            TokenKind::Comma,
            TokenKind::Colon,
            TokenKind::Hash,
            TokenKind::Plus,
            TokenKind::Minus,
            TokenKind::Slash,
            TokenKind::Star,
        ]
    );
}

#[test]
fn newline_and_comment_tokens() {
    assert_eq!(
        kinds_of("; a comment\n*"),
        vec![TokenKind::Comment, TokenKind::NewLine, TokenKind::Star]
    );
    let mut s = Scanner::new("; note");
    let t = s.scan_token().unwrap();
    assert_eq!(t.kind, TokenKind::Comment);
    assert!(s.scan_token().unwrap().eof());
}

#[test]
fn number_literals_in_three_bases() {
    let mut s = Scanner::new("$ff %101 42");
    for expected in [255u64, 5, 42] {
        let t = s.scan_token().unwrap();
        assert_eq!(t.kind, TokenKind::Number);
        assert_eq!(t.value, Some(TokenValue::Number(expected)));
    }
}

#[test]
fn number_expected_after_bare_symbol() {
    let mut s = Scanner::new("$ 1");
    match s.scan_token() {
        Err(ScannerError::NumberExpected { symbol, .. }) => assert_eq!(symbol, '$'),
        other => panic!("wanted NumberExpected, got {:?}", other),
    }
}

#[test]
fn oversized_number_is_refused() {
    let mut s = Scanner::new("$1ffffffffffffffff");
    match s.scan_token() {
        Err(ScannerError::Generic(text)) => assert_eq!(text, "$1ffffffffffffffff"),
        other => panic!("wanted Generic, got {:?}", other),
    }
}

#[test]
fn string_literal_with_escapes() {
    let mut s = Scanner::new("\"ab\\tc\\\"d\"");
    let t = s.scan_token().unwrap();
    assert_eq!(t.kind, TokenKind::String);
    assert_eq!(t.value, Some(TokenValue::String(String::from("ab\tc\"d"))));
}

#[test]
fn unterminated_string_is_refused() {
    let mut s = Scanner::new("'abc");
    match s.scan_token() {
        Err(ScannerError::UnterminatedString { quote, .. }) => assert_eq!(quote, '\''),
        other => panic!("wanted UnterminatedString, got {:?}", other),
    }
}

#[test]
fn directives_match_case_insensitively() {
    let mut s = Scanner::new(".org .DB .dw .Equ");
    for expected in [Directive::ORG, Directive::DB, Directive::DW, Directive::EQU] {
        let t = s.scan_token().unwrap();
        assert_eq!(t.kind, TokenKind::Directive);
        assert_eq!(t.value, Some(TokenValue::Directive(expected)));
    }
}

#[test]
fn unknown_directive_is_refused() {
    let mut s = Scanner::new(".nope");
    match s.scan_token() {
        Err(ScannerError::UnknownDirective { directive, .. }) => {
            assert_eq!(directive, ".nope")
        },
        other => panic!("wanted UnknownDirective, got {:?}", other),
    }
}

#[test]
fn mnemonics_become_instruction_tokens() {
    let mut s = Scanner::new("lda LDX broke");
    let t = s.scan_token().unwrap();
    assert_eq!(t.kind, TokenKind::Instruction);
    assert_eq!(t.value, Some(TokenValue::Instruction(Mnemonic::LDA)));
    let t = s.scan_token().unwrap();
    assert_eq!(t.value, Some(TokenValue::Instruction(Mnemonic::LDX)));
    let t = s.scan_token().unwrap();
    assert_eq!(t.kind, TokenKind::Identifier);
    assert_eq!(t.value, None);
}

#[test]
fn unknown_character_is_refused() {
    let mut s = Scanner::new("@");
    match s.scan_token() {
        Err(ScannerError::UnknownCharacter { character, .. }) => assert_eq!(character, '@'),
        other => panic!("wanted UnknownCharacter, got {:?}", other),
    }
}

#[test]
fn token_text_slices_the_source() {
    let source = "  lda #$10";
    let mut s = Scanner::new(source);
    let t = s.scan_token().unwrap();
    // the recorded span runs one past the scanned characters
    assert_eq!(t.location.start, 2);
    assert_eq!(t.location.line, 1);
    assert_eq!(&t.text(source)[..3], "lda");
}
