use byte_core::lex::lexer::{Lexer, LexerError, TokenLiteral, TokenType};
use byte_core::opcode::Mnemonic;

fn types_of(source: &str) -> Vec<TokenType> {
    let mut lexer = Lexer::new(source);
    let mut kinds = Vec::new();
    loop {
        let t = lexer.scan_token().unwrap();
        if t.eof() {
            return kinds;
        }
        kinds.push(t.kind);
    }
}

#[test]
fn lexer_punctuation_and_relations() {
    assert_eq!(
        types_of("( ) { } , + - * # : = == ! !="),
        vec![
            TokenType::LeftParen,
            TokenType::RightParen,
            TokenType::LeftBrace,
            TokenType::RightBrace,
            TokenType::Comma,
            TokenType::Plus,
            TokenType::Minus,
            TokenType::Star,
            TokenType::Hash,
            TokenType::Colon,
            TokenType::Equal,
            TokenType::EqualEqual,
            TokenType::Bang,
            TokenType::BangEqual,
        ]
    );
}

#[test]
fn lexer_counts_lines_through_blanks() {
    let mut lexer = Lexer::new("+\n\n  -");
    let t = lexer.scan_token().unwrap();
    assert_eq!(t.location.line, 1);
    let t = lexer.scan_token().unwrap();
    assert_eq!(t.kind, TokenType::Minus);
    assert_eq!(t.location.line, 3);
}

#[test]
fn lexer_numbers_and_spans() {
    let mut lexer = Lexer::new("$2a 10");
    let t = lexer.scan_token().unwrap();
    assert_eq!(t.kind, TokenType::Number);
    assert_eq!(t.literal, Some(TokenLiteral::Number(42)));
    assert_eq!((t.location.start, t.location.end), (0, 3));
    let t = lexer.scan_token().unwrap();
    assert_eq!(t.literal, Some(TokenLiteral::Number(10)));
}

#[test]
fn lexer_strings_unescape() {
    let mut lexer = Lexer::new("'a\\nb'");
    let t = lexer.scan_token().unwrap();
    assert_eq!(t.kind, TokenType::String);
    assert_eq!(t.literal, Some(TokenLiteral::String(String::from("a\nb"))));
}

#[test]
fn lexer_directives_dotted_and_bare() {
    assert_eq!(
        types_of(".org .db .dw .equ org equ"),
        vec![
            TokenType::OrgDirective,
            TokenType::DBDirective,
            TokenType::DWDirective,
            TokenType::Equ,
            TokenType::OrgDirective,
            TokenType::Equ,
        ]
    );
}

#[test]
fn lexer_instruction_carries_table_entry() {
    let mut lexer = Lexer::new("adc world");
    let t = lexer.scan_token().unwrap();
    assert_eq!(t.kind, TokenType::Instruction);
    match t.literal {
        Some(TokenLiteral::Opcode(op)) => {
            assert_eq!(op.mnemonic, Mnemonic::ADC);
            assert_eq!(op.code, 0x61); // the lowest-numbered ADC entry
        },
        other => panic!("wanted an opcode literal, got {:?}", other),
    }
    let t = lexer.scan_token().unwrap();
    assert_eq!(t.kind, TokenType::Identifier);
}

#[test]
fn lexer_text_and_eof() {
    let source = " lda ;x";
    let mut lexer = Lexer::new(source);
    let t = lexer.scan_token().unwrap();
    assert_eq!(t.text(source), "lda");
    let t = lexer.scan_token().unwrap();
    assert_eq!(t.kind, TokenType::Comment);
    assert!(lexer.scan_token().unwrap().eof());
}

#[test]
fn lexer_refuses_unknown_directive_and_character() {
    let mut lexer = Lexer::new(".what");
    match lexer.scan_token() {
        Err(LexerError::UnknownDirective { directive, .. }) => assert_eq!(directive, ".what"),
        other => panic!("wanted UnknownDirective, got {:?}", other),
    }
    let mut lexer = Lexer::new("?");
    match lexer.scan_token() {
        Err(LexerError::UnknownCharacter { character, .. }) => assert_eq!(character, '?'),
        other => panic!("wanted UnknownCharacter, got {:?}", other),
    }
}

#[test]
fn lexer_number_and_string_failures() {
    let mut lexer = Lexer::new("%x");
    match lexer.scan_token() {
        Err(LexerError::NumberExpected { symbol, .. }) => assert_eq!(symbol, '%'),
        other => panic!("wanted NumberExpected, got {:?}", other),
    }
    let mut lexer = Lexer::new("\"open\n");
    match lexer.scan_token() {
        Err(LexerError::UnterminatedString { quote, .. }) => assert_eq!(quote, '"'),
        other => panic!("wanted UnterminatedString, got {:?}", other),
    }
    let mut lexer = Lexer::new("99999999999999999999");
    match lexer.scan_token() {
        Err(LexerError::Generic(text)) => assert_eq!(text, "99999999999999999999"),
        other => panic!("wanted Generic, got {:?}", other),
    }
}
