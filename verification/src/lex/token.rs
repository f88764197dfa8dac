//! Tokens of the assembler's surface syntax: punctuation, numbers, strings,
//! identifiers, instruction mnemonics, and assembler directives.

use crate::lex::chars::lower_spec;
use crate::lex::cursor::Location;
use crate::opcode::Mnemonic;
use vstd::prelude::*;

verus! {

/// An assembler directive name.
#[derive(Debug, Clone, Copy, PartialEq, Eq, Structural)]
pub enum Directive {
    DB,
    DW,
    EQU,
    ORG,
}

/// What a token carries beyond its kind.
#[derive(Debug, Clone, PartialEq)]
pub enum TokenValue {
    /// The unescaped body of a string literal.
    String(String),
    /// The value of a number literal.
    Number(u64),
    /// A recognized directive.
    Directive(Directive),
    /// A recognized instruction mnemonic.
    Instruction(Mnemonic),
}

/// The kind of one scanned token.
#[derive(Debug, Clone, Copy, PartialEq, Eq, Structural)]
pub enum TokenKind {
    CloseParen,
    Colon,
    Comma,
    Comment,
    Directive,
    EOF,
    Hash,
    Identifier,
    Instruction,
    Minus,
    NewLine,
    Number,
    OpenParen,
    Plus,
    Semicolon,
    Slash,
    Star,
    String,
}

/// One scanned token: kind, optional value, and where it sits.
#[derive(Debug, Clone, PartialEq)]
pub struct Token {
    pub kind: TokenKind,
    pub value: Option<TokenValue>,
    pub location: Location,
}

impl Token {
    /// Whether this token marks the end of the input.
    pub fn eof(&self) -> (r: bool)
        ensures
            r == (self.kind == TokenKind::EOF),
    {
        matches!(self.kind, TokenKind::EOF)
    }

    /// The token's own slice of the source text, by character positions.
    pub fn text<'a>(&self, source: &'a str) -> (r: &'a str)
        requires
            self.location.start + self.location.length <= usize::MAX,
            self.location.start + self.location.length <= source@.len(),
        ensures
            r@ == source@.subrange(
                self.location.start as int,
                self.location.start + self.location.length,
            ),
    {
        source.substring_char(self.location.start, self.location.start + self.location.length)
    }
}

/// The directive named by `s`, compared ASCII-case-insensitively.
pub open spec fn directive_spec(s: Seq<char>) -> Option<Directive> {
    if s.len() == 2 && lower_spec(s[0]) == 'd' && lower_spec(s[1]) == 'b' {
        Some(Directive::DB)
    } else if s.len() == 2 && lower_spec(s[0]) == 'd' && lower_spec(s[1]) == 'w' {
        Some(Directive::DW)
    } else if s.len() == 3 && lower_spec(s[0]) == 'e' && lower_spec(s[1]) == 'q' && lower_spec(
        s[2],
    ) == 'u' {
        Some(Directive::EQU)
    } else if s.len() == 3 && lower_spec(s[0]) == 'o' && lower_spec(s[1]) == 'r' && lower_spec(
        s[2],
    ) == 'g' {
        Some(Directive::ORG)
    } else {
        None
    }
}

/// Looks the characters `[from, to)` of `chars` up as a directive name.
pub fn directive_lookup(chars: &Vec<char>, from: usize, to: usize) -> (r: Option<Directive>)
    requires
        from <= to <= chars@.len(),
    ensures
        r == directive_spec(chars@.subrange(from as int, to as int)),
{
    let n = to - from;
    if n == 2 {
        let c0 = crate::lex::chars::lower(chars[from]);
        let c1 = crate::lex::chars::lower(chars[from + 1]);
        if c0 == 'd' && c1 == 'b' {
            Some(Directive::DB)
        } else if c0 == 'd' && c1 == 'w' {
            Some(Directive::DW)
        } else {
            None
        }
    } else if n == 3 {
        let c0 = crate::lex::chars::lower(chars[from]);
        let c1 = crate::lex::chars::lower(chars[from + 1]);
        let c2 = crate::lex::chars::lower(chars[from + 2]);
        if c0 == 'e' && c1 == 'q' && c2 == 'u' {
            Some(Directive::EQU)
        } else if c0 == 'o' && c1 == 'r' && c2 == 'g' {
            Some(Directive::ORG)
        } else {
            None
        }
    } else {
        None
    }
}

} // verus!
