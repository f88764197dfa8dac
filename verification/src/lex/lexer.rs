//! The assembler's older token lexer: the same surface syntax as the
//! scanner, with relational operators and braces, directive names carried
//! in the token kind itself, and instruction tokens carrying their first
//! opcode-table entry.

use crate::lex::chars::{digit_of, digit_of_spec, is_ident_char};
use crate::lex::scanner::{
    comment_end, digit_run_end, digits_val, ident_end, lemma_digits_val_monotone,
    lemma_digit_run_end_ge, lemma_ident_end_ge, lemma_string_end_ge, string_end, unescape,
};
use crate::lex::token::{directive_lookup, directive_spec, Directive};
use crate::opcode::{mnemonic_lookup, mnemonic_spec, opcode_by_name, opcode_spec, Opcode};
use vstd::prelude::*;

verus! {

/// What the lexer can refuse.
#[derive(Debug, Clone)]
pub enum LexerError {
    /// A `.name` that names no known directive.
    UnknownDirective { line: usize, column: usize, directive: String },
    /// A character no token can start with.
    UnknownCharacter { line: usize, column: usize, character: char },
    /// A `$` or `%` with no digit after it.
    NumberExpected { line: usize, column: usize, symbol: char },
    /// A string still open at a line break or at the end of the text.
    UnterminatedString { line: usize, column: usize, quote: char },
    /// A number literal too large for 64 bits.
    Generic(String),
}

pub type LexerResult<T> = Result<T, LexerError>;

/// The kind of one lexed token.
#[derive(Debug, Clone, Copy, PartialEq, Eq, Structural)]
pub enum TokenType {
    LeftParen,
    RightParen,
    LeftBrace,
    RightBrace,
    Comma,
    Dot,
    Minus,
    Plus,
    Semicolon,
    Slash,
    Star,
    Hash,
    Bang,
    BangEqual,
    Equal,
    EqualEqual,
    Greater,
    GreaterEqual,
    Less,
    LessEqual,
    DollarSign,
    NumberSign,
    PercentSign,
    Colon,
    Identifier,
    Instruction,
    OrgDirective,
    DBDirective,
    DWDirective,
    Equ,
    String,
    Number,
    Comment,
    EndOfFile,
}

/// Where a lexed token sits in its source, by character positions.
#[derive(Debug, Clone, Copy, PartialEq, Eq, Structural)]
pub struct Location {
    pub start: usize,
    pub end: usize,
    pub line: usize,
    pub column: usize,
}

/// What a token carries beyond its kind.
#[derive(Debug, Clone, PartialEq)]
pub enum TokenLiteral {
    /// The unescaped body of a string literal.
    String(String),
    /// The value of a number literal.
    Number(u64),
    /// The table entry of a recognized instruction mnemonic.
    Opcode(Opcode),
}

/// One lexed token: kind, optional literal, and its span.
#[derive(Debug, Clone, PartialEq)]
pub struct Token {
    pub kind: TokenType,
    pub literal: Option<TokenLiteral>,
    pub location: Location,
}

impl Token {
    /// Whether this token marks the end of the input.
    pub fn eof(&self) -> (r: bool)
        ensures
            r == (self.kind == TokenType::EndOfFile),
    {
        matches!(self.kind, TokenType::EndOfFile)
    }

    /// The token's own slice of the source text, by character positions.
    pub fn text<'a>(&self, source: &'a str) -> (r: &'a str)
        requires
            self.location.start <= self.location.end <= source@.len(),
        ensures
            r@ == source@.subrange(self.location.start as int, self.location.end as int),
    {
        source.substring_char(self.location.start, self.location.end)
    }
}

/// The token kind of a directive or keyword name (the keywords may also
/// appear bare, without the leading dot).
pub open spec fn keyword_spec(s: Seq<char>) -> Option<TokenType> {
    match directive_spec(s) {
        Some(Directive::ORG) => Some(TokenType::OrgDirective),
        Some(Directive::DB) => Some(TokenType::DBDirective),
        Some(Directive::DW) => Some(TokenType::DWDirective),
        Some(Directive::EQU) => Some(TokenType::Equ),
        None => None,
    }
}

/// The first position at or after `i` past all blanks, line breaks
/// included.
pub open spec fn blank_end(src: Seq<char>, i: int) -> int
    decreases src.len() - i,
{
    if i < 0 || i >= src.len() {
        i
    } else if src[i] == ' ' || src[i] == '\r' || src[i] == '\t' || src[i] == '\n' {
        blank_end(src, i + 1)
    } else {
        i
    }
}

/// How many line breaks lie in `[i, j)` of `src`.
pub open spec fn nl_count(src: Seq<char>, i: int, j: int) -> int
    decreases j - i,
{
    if j <= i || i < 0 {
        0
    } else {
        nl_count(src, i, j - 1) + if j - 1 < src.len() && src[j - 1] == '\n' {
            1int
        } else {
            0int
        }
    }
}

/// The token lexer.
pub struct Lexer {
    pub source: String,
    pub chars: Vec<char>,
    pub column: usize,
    pub current: usize,
    pub line: usize,
    pub start: usize,
}

impl Lexer {
    /// The source text under the lexer, as characters.
    pub open spec fn src(&self) -> Seq<char> {
        self.chars@
    }

    /// Positions stay inside the text, the token start at or before the
    /// position, the column within it, and the characters match the text.
    pub open spec fn wf(&self) -> bool {
        &&& self.start <= self.current <= self.src().len()
        &&& self.column <= self.current
        &&& self.src() == self.source@
    }

    /// A lexer at the start of `source`, on line 1.
    pub fn new(source: &str) -> (r: Self)
        ensures
            r.wf(),
            r.src() == source@,
            r.current == 0 && r.start == 0 && r.column == 0 && r.line == 1,
    {
        Lexer {
            source: source.to_owned(),
            chars: crate::lex::chars::str_to_chars(source),
            column: 0,
            current: 0,
            line: 1,
            start: 0,
        }
    }

    /// Whether the whole text has been consumed.
    pub fn is_at_end(&self) -> (r: bool)
        requires
            self.wf(),
        ensures
            r == (self.current == self.src().len()),
    {
        self.current >= self.chars.len()
    }

    /// The character under the lexer, if any; the position does not move.
    pub fn peek(&self) -> (r: Option<char>)
        requires
            self.wf(),
        ensures
            r == (if self.current < self.src().len() {
                Some(self.src()[self.current as int])
            } else {
                None::<char>
            }),
    {
        if self.current < self.chars.len() {
            Some(self.chars[self.current])
        } else {
            None
        }
    }

    /// Consumes and returns the character under the lexer.
    pub fn advance(&mut self) -> (r: Option<char>)
        requires
            old(self).wf(),
        ensures
            final (self).wf(),
            final (self).source == old(self).source,
            final (self).src() == old(self).src(),
            final (self).start == old(self).start,
            final (self).line == old(self).line,
            (r is Some <==> old(self).current < old(self).src().len()),
            r matches Some(c) ==> {
                &&& c == old(self).src()[old(self).current as int]
                &&& final (self).current == old(self).current + 1
                &&& final (self).column == old(self).column + 1
            },
            r is None ==> *final (self) == *old(self),
    {
        let n = self.chars.len();
        if self.current >= n {
            None
        } else {
            self.column = self.column + 1;
            self.current = self.current + 1;
            Some(self.chars[self.current - 1])
        }
    }

    /// Consumes the next character when it equals `next`, answering
    /// `on_true`; otherwise stays put and answers `on_false`.
    pub fn match_next(&mut self, next: char, on_true: TokenType, on_false: TokenType) -> (r:
        TokenType)
        requires
            old(self).wf(),
        ensures
            final (self).wf(),
            final (self).source == old(self).source,
            final (self).src() == old(self).src(),
            final (self).start == old(self).start,
            final (self).line == old(self).line,
            ({
                let hit = old(self).current < old(self).src().len() && old(self).src()[old(
                    self,
                ).current as int] == next;
                &&& r == (if hit {
                    on_true
                } else {
                    on_false
                })
                &&& final (self).current == old(self).current + (if hit {
                    1int
                } else {
                    0int
                })
            }),
    {
        let n = self.chars.len();
        if self.current < n && self.chars[self.current] == next {
            self.column = self.column + 1;
            self.current = self.current + 1;
            return on_true;
        }
        on_false
    }

    /// A token of the given kind, without a literal, spanning the
    /// characters consumed since the last token.
    pub fn make_token(&self, kind: TokenType) -> (t: Token)
        requires
            self.start <= self.current,
        ensures
            t.kind == kind,
            t.literal is None,
            t.location == (Location {
                start: self.start,
                end: self.current,
                line: self.line,
                column: self.column,
            }),
    {
        Token {
            kind,
            literal: None,
            location: Location {
                start: self.start,
                end: self.current,
                line: self.line,
                column: self.column,
            },
        }
    }

    /// A token of the given kind carrying a literal.
    pub fn make_token_literal(&self, kind: TokenType, literal: TokenLiteral) -> (t: Token)
        requires
            self.start <= self.current,
        ensures
            t.kind == kind,
            t.literal == Some(literal),
            t.location == (Location {
                start: self.start,
                end: self.current,
                line: self.line,
                column: self.column,
            }),
    {
        Token {
            kind,
            literal: Some(literal),
            location: Location {
                start: self.start,
                end: self.current,
                line: self.line,
                column: self.column,
            },
        }
    }

    /// Consumes blanks, counting the line breaks among them.
    fn skip_whitespace(&mut self)
        requires
            old(self).wf(),
            old(self).line + old(self).src().len() <= usize::MAX,
        ensures
            final (self).wf(),
            final (self).source == old(self).source,
            final (self).src() == old(self).src(),
            final (self).start == old(self).start,
            final (self).current == blank_end(old(self).src(), old(self).current as int),
            final (self).line == old(self).line + nl_count(
                old(self).src(),
                old(self).current as int,
                blank_end(old(self).src(), old(self).current as int),
            ),
    {
        loop
            invariant
                self.wf(),
                self.source == old(self).source,
                self.start == old(self).start,
                self.src() == old(self).src(),
                old(self).current <= self.current,
                self.line + (self.src().len() - self.current) <= usize::MAX,
                blank_end(self.src(), self.current as int) == blank_end(
                    old(self).src(),
                    old(self).current as int,
                ),
                self.line == old(self).line + nl_count(
                    old(self).src(),
                    old(self).current as int,
                    self.current as int,
                ),
            ensures
                blank_end(self.src(), self.current as int) == self.current as int,
            decreases self.src().len() - self.current,
        {
            let n = self.chars.len();
            if self.current >= n {
                break ;
            }
            let c = self.chars[self.current];
            if c == ' ' || c == '\r' || c == '\t' {
                self.column = self.column + 1;
                self.current = self.current + 1;
            } else if c == '\n' {
                self.current = self.current + 1;
                self.line = self.line + 1;
                self.column = 0;
            } else {
                break ;
            }
            proof {
                assert(nl_count(old(self).src(), old(self).current as int, self.current as int)
                    == nl_count(
                    old(self).src(),
                    old(self).current as int,
                    self.current - 1,
                ) + if c == '\n' {
                    1int
                } else {
                    0int
                });
            }
        }
    }

    /// Consumes everything up to (not including) the next line break.
    fn scan_comment(&mut self)
        requires
            old(self).wf(),
        ensures
            final (self).wf(),
            final (self).source == old(self).source,
            final (self).src() == old(self).src(),
            final (self).start == old(self).start,
            final (self).line == old(self).line,
            final (self).current == comment_end(old(self).src(), old(self).current as int),
    {
        loop
            invariant
                self.wf(),
                self.source == old(self).source,
                self.start == old(self).start,
                self.line == old(self).line,
                self.src() == old(self).src(),
                comment_end(self.src(), self.current as int) == comment_end(
                    old(self).src(),
                    old(self).current as int,
                ),
            ensures
                comment_end(self.src(), self.current as int) == self.current as int,
            decreases self.src().len() - self.current,
        {
            let n = self.chars.len();
            if self.current >= n || self.chars[self.current] == '\n' {
                break ;
            }
            self.column = self.column + 1;
            self.current = self.current + 1;
        }
    }

    /// Consumes the rest of an identifier: ASCII letters, digits, `_`.
    fn scan_identifier(&mut self)
        requires
            old(self).wf(),
        ensures
            final (self).wf(),
            final (self).source == old(self).source,
            final (self).src() == old(self).src(),
            final (self).start == old(self).start,
            final (self).line == old(self).line,
            final (self).current == ident_end(old(self).src(), old(self).current as int),
    {
        loop
            invariant
                self.wf(),
                self.source == old(self).source,
                self.start == old(self).start,
                self.line == old(self).line,
                self.src() == old(self).src(),
                ident_end(self.src(), self.current as int) == ident_end(
                    old(self).src(),
                    old(self).current as int,
                ),
            ensures
                ident_end(self.src(), self.current as int) == self.current as int,
            decreases self.src().len() - self.current,
        {
            let n = self.chars.len();
            if self.current >= n || !is_ident_char(self.chars[self.current]) {
                break ;
            }
            self.column = self.column + 1;
            self.current = self.current + 1;
        }
    }

    /// Consumes the digit run under the lexer and evaluates the literal,
    /// exactly as the scanner's `scan_number` does.
    fn scan_number(&mut self, radix: u32, start_offset: usize) -> (r: LexerResult<u64>)
        requires
            old(self).wf(),
            radix == 2 || radix == 10 || radix == 16,
            old(self).start + start_offset <= old(self).current,
            forall|k: int|
                old(self).start + start_offset <= k < old(self).current ==> digit_of_spec(
                    #[trigger] old(self).src()[k],
                    radix,
                ) is Some,
        ensures
            final (self).wf(),
            final (self).source == old(self).source,
            final (self).src() == old(self).src(),
            final (self).start == old(self).start,
            final (self).line == old(self).line,
            final (self).current == digit_run_end(old(self).src(), old(self).current as int, radix),
            ({
                let src = old(self).src();
                let ps = old(self).start + start_offset;
                let e = digit_run_end(src, old(self).current as int, radix);
                let v = digits_val(src, ps as int, e, radix);
                let empty_run = e - old(self).start == 1 && radix != 10;
                match r {
                    Ok(u) => !empty_run && u == v,
                    Err(err) => {
                        &&& (err matches LexerError::Generic(_) ==> (!empty_run && v > u64::MAX))
                        &&& (err matches LexerError::NumberExpected { .. } || err
                            matches LexerError::Generic(_))
                        &&& (empty_run <==> err matches LexerError::NumberExpected { .. })
                    },
                }
            }),
    {
        let ghost src = self.src();
        let ghost e = digit_run_end(src, old(self).current as int, radix);
        loop
            invariant
                self.wf(),
                self.source == old(self).source,
                self.start == old(self).start,
                self.line == old(self).line,
                self.src() == src,
                old(self).current <= self.current,
                digit_run_end(src, self.current as int, radix) == e,
                forall|k: int|
                    old(self).current <= k < self.current ==> digit_of_spec(
                        #[trigger] src[k],
                        radix,
                    ) is Some,
            ensures
                self.current == e,
                forall|k: int|
                    old(self).current <= k < self.current ==> digit_of_spec(
                        #[trigger] src[k],
                        radix,
                    ) is Some,
            decreases self.src().len() - self.current,
        {
            let n = self.chars.len();
            if self.current >= n || digit_of(self.chars[self.current], radix).is_none() {
                break ;
            }
            self.column = self.column + 1;
            self.current = self.current + 1;
        }
        if self.current - self.start == 1 && radix != 10 {
            return Err(
                LexerError::NumberExpected {
                    line: self.line,
                    column: self.column,
                    symbol: if radix == 16 {
                        '$'
                    } else {
                        '%'
                    },
                },
            );
        }
        let ps = self.start + start_offset;
        let mut value: u64 = 0;
        let mut j: usize = ps;
        proof {
            lemma_digits_val_monotone(src, ps as int, ps as int, e, radix);
        }
        while j < self.current
            invariant
                self.wf(),
                self.src() == src,
                self.source == old(self).source,
                self.start == old(self).start,
                self.line == old(self).line,
                src == old(self).src(),
                e == digit_run_end(src, old(self).current as int, radix),
                !(e - self.start == 1 && radix != 10),
                ps <= j <= self.current == e <= src.len(),
                ps == old(self).start + start_offset,
                radix == 2 || radix == 10 || radix == 16,
                forall|k: int|
                    ps <= k < e ==> digit_of_spec(#[trigger] src[k], radix) is Some,
                value == digits_val(src, ps as int, j as int, radix),
            decreases e - j,
        {
            let c = self.chars[j];
            let d = match digit_of(c, radix) {
                Some(d) => d,
                None => 0,
            };
            let next = match value.checked_mul(radix as u64) {
                Some(m) => m.checked_add(d as u64),
                None => None,
            };
            match next {
                Some(nv) => {
                    value = nv;
                },
                None => {
                    proof {
                        lemma_digits_val_monotone(src, ps as int, j + 1, e, radix);
                    }
                    return Err(LexerError::Generic(self.source.substring_char(
                        self.start,
                        self.current,
                    ).to_owned()));
                },
            }
            j = j + 1;
        }
        Ok(value)
    }

    /// Consumes a string body and its closing quote, unescaping exactly as
    /// the scanner's `scan_string` does.
    fn scan_string(&mut self, quote: char) -> (r: LexerResult<String>)
        requires
            old(self).wf(),
        ensures
            final (self).wf(),
            final (self).source == old(self).source,
            final (self).src() == old(self).src(),
            final (self).start == old(self).start,
            final (self).line == old(self).line,
            ({
                let src = old(self).src();
                let p0 = old(self).current as int;
                let stop = string_end(src, p0, quote);
                match r {
                    Ok(st) => {
                        &&& st@ == unescape(src, p0, quote)
                        &&& stop < src.len() && src[stop] == quote
                        &&& final (self).current == stop + 1
                    },
                    Err(err) => {
                        &&& err matches LexerError::UnterminatedString { quote: q, .. } && q
                            == quote
                        &&& (stop >= src.len() || src[stop] == '\n')
                        &&& final (self).current == stop
                    },
                }
            }),
    {
        let ghost src = self.src();
        let ghost p0 = old(self).current as int;
        let mut string = String::new();
        loop
            invariant
                self.wf(),
                self.source == old(self).source,
                self.start == old(self).start,
                self.line == old(self).line,
                self.src() == src,
                p0 <= self.current,
                string_end(src, self.current as int, quote) == string_end(src, p0, quote),
                unescape(src, p0, quote) == string@ + unescape(src, self.current as int, quote),
            ensures
                self.current as int == string_end(src, self.current as int, quote),
            decreases src.len() - self.current,
        {
            let n = self.chars.len();
            if self.current >= n {
                break ;
            }
            let c = self.chars[self.current];
            if c == quote || c == '\n' {
                break ;
            }
            let at = self.current;
            self.column = self.column + 1;
            self.current = self.current + 1;
            if c != '\\' {
                string.append(self.source.as_str().substring_char(at, at + 1));
                continue ;
            }
            if self.current >= n {
                continue ;
            }
            let e = self.chars[self.current];
            if e == 'n' {
                string.append("\n");
            } else if e == 'r' {
                string.append("\r");
            } else if e == 't' {
                string.append("\t");
            } else {
                let at2 = self.current;
                string.append(self.source.as_str().substring_char(at2, at2 + 1));
            }
            proof {
                reveal_strlit("\n");
                reveal_strlit("\r");
                reveal_strlit("\t");
            }
            self.column = self.column + 1;
            self.current = self.current + 1;
        }
        let n = self.chars.len();
        if self.current >= n || self.chars[self.current] == '\n' {
            Err(
                LexerError::UnterminatedString { line: self.line, column: self.column, quote },
            )
        } else {
            proof {
                lemma_string_end_ge(src, self.current + 1, quote);
                if self.current + 2 <= src.len() {
                    lemma_string_end_ge(src, self.current + 2, quote);
                }
                assert(string@ + Seq::<char>::empty() =~= string@);
            }
            self.column = self.column + 1;
            self.current = self.current + 1;
            Ok(string)
        }
    }
}

} // verus!

verus! {

/// The kind of a one-character token of the lexer, if `c` starts one.
pub open spec fn single_type(c: char) -> Option<TokenType> {
    match c {
        '(' => Some(TokenType::LeftParen),
        ')' => Some(TokenType::RightParen),
        '{' => Some(TokenType::LeftBrace),
        '}' => Some(TokenType::RightBrace),
        ',' => Some(TokenType::Comma),
        '+' => Some(TokenType::Plus),
        '-' => Some(TokenType::Minus),
        '*' => Some(TokenType::Star),
        '#' => Some(TokenType::Hash),
        ':' => Some(TokenType::Colon),
        _ => None,
    }
}

impl Lexer {
    /// Lexes one token: blanks (line breaks included) are consumed first,
    /// then the token the next character starts. `=` and `!` pair with a
    /// following `=`; `.name` and the bare keywords yield directive kinds;
    /// a known mnemonic yields an instruction token carrying its lowest
    /// opcode-table entry; the end of the text yields an EndOfFile token.
    #[verifier::rlimit(100)]
    pub fn scan_token(&mut self) -> (r: LexerResult<Token>)
        requires
            old(self).wf(),
            old(self).line + old(self).src().len() <= usize::MAX,
        ensures
            final (self).wf(),
            final (self).source == old(self).source,
            final (self).src() == old(self).src(),
            ({
                let src = old(self).src();
                let i = blank_end(src, old(self).current as int);
                let me = *final (self);
                if i == src.len() {
                    r matches Ok(t) && t.kind == TokenType::EndOfFile && t.literal is None
                        && me.current == i
                } else {
                    let c = src[i];
                    if single_type(c) is Some {
                        r matches Ok(t) && Some(t.kind) == single_type(c) && t.literal is None
                            && t.location.start == i && me.current == i + 1
                    } else if c == '=' || c == '!' {
                        let hit = i + 1 < src.len() && src[i + 1] == '=';
                        r matches Ok(t) && t.literal is None && me.current == i + (if hit {
                            2int
                        } else {
                            1int
                        }) && t.kind == (if c == '=' {
                            if hit {
                                TokenType::EqualEqual
                            } else {
                                TokenType::Equal
                            }
                        } else {
                            if hit {
                                TokenType::BangEqual
                            } else {
                                TokenType::Bang
                            }
                        })
                    } else if c == ';' {
                        r matches Ok(t) && t.kind == TokenType::Comment && t.literal is None
                            && me.current == comment_end(src, i + 1)
                    } else if c == '%' || c == '$' {
                        let radix: u32 = if c == '$' {
                            16
                        } else {
                            2
                        };
                        let e = digit_run_end(src, i + 1, radix);
                        let v = digits_val(src, i + 1, e, radix);
                        match r {
                            Ok(t) => {
                                &&& t.kind == TokenType::Number
                                &&& t.literal == Some(TokenLiteral::Number(v as u64))
                                &&& e > i + 1 && v <= u64::MAX
                                &&& me.current == e
                            },
                            Err(err) => {
                                &&& (err matches LexerError::NumberExpected { .. } <==> e == i
                                    + 1)
                                &&& (err matches LexerError::Generic(_) ==> v > u64::MAX)
                            },
                        }
                    } else if crate::lex::chars::is_ascii_digit(c) {
                        let e = digit_run_end(src, i as int, 10);
                        let v = digits_val(src, i as int, e, 10);
                        match r {
                            Ok(t) => {
                                &&& t.kind == TokenType::Number
                                &&& t.literal == Some(TokenLiteral::Number(v as u64))
                                &&& v <= u64::MAX
                                &&& me.current == e
                            },
                            Err(err) => err matches LexerError::Generic(_) && v > u64::MAX,
                        }
                    } else if c == '\'' || c == '"' {
                        let stop = string_end(src, i + 1, c);
                        match r {
                            Ok(t) => {
                                &&& t.kind == TokenType::String
                                &&& (t.literal matches Some(TokenLiteral::String(st)) && st@
                                    == unescape(src, i + 1, c))
                                &&& stop < src.len() && src[stop] == c
                                &&& me.current == stop + 1
                            },
                            Err(err) => {
                                &&& err matches LexerError::UnterminatedString { .. }
                                &&& (stop >= src.len() || src[stop] == '\n')
                            },
                        }
                    } else if c == '.' {
                        let e = ident_end(src, i + 1);
                        match r {
                            Ok(t) => {
                                &&& Some(t.kind) == keyword_spec(src.subrange(i + 1, e))
                                &&& t.literal is None
                                &&& me.current == e
                            },
                            Err(err) => {
                                &&& err matches LexerError::UnknownDirective { .. }
                                &&& keyword_spec(src.subrange(i + 1, e)) is None
                            },
                        }
                    } else if crate::lex::chars::is_ascii_alpha(c) {
                        let e = ident_end(src, i + 1);
                        let name = src.subrange(i as int, e);
                        r matches Ok(t) && me.current == e && (match mnemonic_spec(name) {
                            Some(m) => {
                                &&& (t.kind == TokenType::Instruction ==> (t.literal
                                    matches Some(TokenLiteral::Opcode(op)) && opcode_spec(op.code)
                                    == Some(op) && op.mnemonic == m))
                                &&& (t.kind != TokenType::Instruction ==> (forall|cd: u8|
                                    #[trigger] opcode_spec(cd) matches Some(op) ==> op.mnemonic
                                        != m))
                            },
                            None => {
                                &&& t.literal is None
                                &&& t.kind == (match keyword_spec(name) {
                                    Some(k) => k,
                                    None => TokenType::Identifier,
                                })
                            },
                        })
                    } else {
                        r matches Err(err) && err matches LexerError::UnknownCharacter {
                            character,
                            ..
                        } && character == c
                    }
                }
            }),
    {
        self.skip_whitespace();
        self.start = self.current;
        let c = match self.advance() {
            None => {
                return Ok(self.make_token(TokenType::EndOfFile));
            },
            Some(c) => c,
        };
        match c {
            '(' => Ok(self.make_token(TokenType::LeftParen)),
            ')' => Ok(self.make_token(TokenType::RightParen)),
            '{' => Ok(self.make_token(TokenType::LeftBrace)),
            '}' => Ok(self.make_token(TokenType::RightBrace)),
            ',' => Ok(self.make_token(TokenType::Comma)),
            '+' => Ok(self.make_token(TokenType::Plus)),
            '-' => Ok(self.make_token(TokenType::Minus)),
            '*' => Ok(self.make_token(TokenType::Star)),
            '#' => Ok(self.make_token(TokenType::Hash)),
            ':' => Ok(self.make_token(TokenType::Colon)),
            '=' => {
                let kind = self.match_next('=', TokenType::EqualEqual, TokenType::Equal);
                Ok(self.make_token(kind))
            },
            '!' => {
                let kind = self.match_next('=', TokenType::BangEqual, TokenType::Bang);
                Ok(self.make_token(kind))
            },
            ';' => {
                self.scan_comment();
                Ok(self.make_token(TokenType::Comment))
            },
            '%' => {
                proof {
                    lemma_digit_run_end_ge(self.src(), self.current as int, 2);
                }
                match self.scan_number(2, 1) {
                    Ok(v) => Ok(self.make_token_literal(
                        TokenType::Number,
                        TokenLiteral::Number(v),
                    )),
                    Err(e) => Err(e),
                }
            },
            '$' => {
                proof {
                    lemma_digit_run_end_ge(self.src(), self.current as int, 16);
                }
                match self.scan_number(16, 1) {
                    Ok(v) => Ok(self.make_token_literal(
                        TokenType::Number,
                        TokenLiteral::Number(v),
                    )),
                    Err(e) => Err(e),
                }
            },
            '\'' | '"' => {
                match self.scan_string(c) {
                    Ok(st) => Ok(self.make_token_literal(
                        TokenType::String,
                        TokenLiteral::String(st),
                    )),
                    Err(e) => Err(e),
                }
            },
            '.' => {
                self.scan_identifier();
                proof {
                    lemma_ident_end_ge(self.src(), self.start + 1);
                }
                let from = self.start + 1;
                let to = self.current;
                match directive_lookup(&self.chars, from, to) {
                    Some(d) => {
                        let kind = match d {
                            Directive::ORG => TokenType::OrgDirective,
                            Directive::DB => TokenType::DBDirective,
                            Directive::DW => TokenType::DWDirective,
                            Directive::EQU => TokenType::Equ,
                        };
                        Ok(self.make_token(kind))
                    },
                    None => Err(
                        LexerError::UnknownDirective {
                            line: self.line,
                            column: self.column,
                            directive: self.source.substring_char(self.start, self.current)
                                .to_owned(),
                        },
                    ),
                }
            },
            _ => {
                if crate::lex::chars::is_ascii_digit(c) {
                    return match self.scan_number(10, 0) {
                        Ok(v) => Ok(self.make_token_literal(
                            TokenType::Number,
                            TokenLiteral::Number(v),
                        )),
                        Err(e) => Err(e),
                    };
                }
                if crate::lex::chars::is_ascii_alpha(c) {
                    self.scan_identifier();
                    let from = self.start;
                    let to = self.current;
                    if let Some(m) = mnemonic_lookup(&self.chars, from, to) {
                        if let Some(op) = opcode_by_name(m) {
                            return Ok(self.make_token_literal(
                                TokenType::Instruction,
                                TokenLiteral::Opcode(op),
                            ));
                        }
                        return Ok(self.make_token(TokenType::Identifier));
                    }
                    return match directive_lookup(&self.chars, from, to) {
                        Some(Directive::ORG) => Ok(
                            self.make_token(TokenType::OrgDirective),
                        ),
                        Some(Directive::DB) => Ok(
                            self.make_token(TokenType::DBDirective),
                        ),
                        Some(Directive::DW) => Ok(
                            self.make_token(TokenType::DWDirective),
                        ),
                        Some(Directive::EQU) => Ok(
                            self.make_token(TokenType::Equ),
                        ),
                        None => Ok(self.make_token(TokenType::Identifier)),
                    };
                }
                Err(
                    LexerError::UnknownCharacter {
                        line: self.line,
                        column: self.column,
                        character: c,
                    },
                )
            },
        }
    }
}

} // verus!
