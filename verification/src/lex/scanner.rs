//! The assembler's token scanner: one `scan_token` call consumes leading
//! spaces and then exactly one token — punctuation, a newline, a comment, a
//! number in base 2/10/16, a quoted string with escapes, a directive, an
//! instruction mnemonic, or an identifier.

use crate::lex::chars::{digit_of, digit_of_spec, is_ident_char, is_space};
use crate::lex::cursor::Cursor;
use crate::lex::token::{directive_lookup, directive_spec, Token, TokenKind, TokenValue};
use crate::opcode::{mnemonic_lookup, mnemonic_spec};
use vstd::prelude::*;

verus! {

/// What the scanner can refuse.
#[derive(Debug, Clone)]
pub enum ScannerError {
    /// A `.name` that names no known directive.
    UnknownDirective { line: usize, column: usize, directive: String },
    /// A character no token can start with.
    UnknownCharacter { line: usize, column: usize, character: char },
    /// A `$` or `%` with no digit after it.
    NumberExpected { line: usize, column: usize, symbol: char },
    /// A string still open at a line break or at the end of the text.
    UnterminatedString { line: usize, column: usize, quote: char },
    /// A number literal too large for 64 bits.
    Generic(String),
}

pub type ScannerResult<T> = Result<T, ScannerError>;

/// The first position at or after `i` holding something other than a
/// space, carriage return or tab (or the end of the text).
pub open spec fn ws_end(src: Seq<char>, i: int) -> int
    decreases src.len() - i,
{
    if i < 0 || i >= src.len() {
        i
    } else if is_space(src[i]) {
        ws_end(src, i + 1)
    } else {
        i
    }
}

/// The first position at or after `i` holding a line break (or the end).
pub open spec fn comment_end(src: Seq<char>, i: int) -> int
    decreases src.len() - i,
{
    if i < 0 || i >= src.len() {
        i
    } else if src[i] == '\n' {
        i
    } else {
        comment_end(src, i + 1)
    }
}

/// The first position at or after `i` that cannot continue an identifier.
pub open spec fn ident_end(src: Seq<char>, i: int) -> int
    decreases src.len() - i,
{
    if i < 0 || i >= src.len() {
        i
    } else if is_ident_char(src[i]) {
        ident_end(src, i + 1)
    } else {
        i
    }
}

/// The first position at or after `i` holding no digit of base `radix`.
pub open spec fn digit_run_end(src: Seq<char>, i: int, radix: u32) -> int
    decreases src.len() - i,
{
    if i < 0 || i >= src.len() {
        i
    } else if digit_of_spec(src[i], radix) is Some {
        digit_run_end(src, i + 1, radix)
    } else {
        i
    }
}

/// The value of the digits `[from, to)` read in base `radix`.
pub open spec fn digits_val(src: Seq<char>, from: int, to: int, radix: u32) -> int
    decreases to - from,
{
    if to <= from {
        0
    } else {
        digits_val(src, from, to - 1, radix) * radix + (match digit_of_spec(
            src[to - 1],
            radix,
        ) {
            Some(d) => d as int,
            None => 0,
        })
    }
}

/// Where the body of a string starting at `i` stops: at the closing quote,
/// at a line break, or at the end of the text; escapes consume two
/// characters.
pub open spec fn string_end(src: Seq<char>, i: int, quote: char) -> int
    decreases src.len() - i,
{
    if i < 0 || i >= src.len() || src[i] == quote || src[i] == '\n' {
        i
    } else if src[i] != '\\' {
        string_end(src, i + 1, quote)
    } else if i + 1 >= src.len() {
        i + 1
    } else {
        string_end(src, i + 2, quote)
    }
}

/// The character an escape `\c` stands for (anything unrecognized stands
/// for itself).
pub open spec fn esc_char(c: char) -> char {
    match c {
        'n' => '\n',
        'r' => '\r',
        't' => '\t',
        _ => c,
    }
}

/// The unescaped body of a string starting at `i`, up to its stop.
pub open spec fn unescape(src: Seq<char>, i: int, quote: char) -> Seq<char>
    decreases src.len() - i,
{
    if i < 0 || i >= src.len() || src[i] == quote || src[i] == '\n' {
        Seq::empty()
    } else if src[i] != '\\' {
        seq![src[i]] + unescape(src, i + 1, quote)
    } else if i + 1 >= src.len() {
        Seq::empty()
    } else {
        seq![esc_char(src[i + 1])] + unescape(src, i + 2, quote)
    }
}

/// The values a digit run denotes never shrink as the run grows.
pub proof fn lemma_digits_val_monotone(src: Seq<char>, from: int, mid: int, to: int, radix: u32)
    requires
        radix >= 2,
        from <= mid <= to,
    ensures
        0 <= digits_val(src, from, mid, radix) <= digits_val(src, from, to, radix),
    decreases to - from,
{
    if to > mid {
        lemma_digits_val_monotone(src, from, mid, to - 1, radix);
        let prev = digits_val(src, from, to - 1, radix);
        assert(prev * radix >= prev) by (nonlinear_arith)
            requires
                prev >= 0,
                radix >= 2,
        ;
    } else if to > from {
        lemma_digits_val_monotone(src, from, from, to - 1, radix);
        let prev = digits_val(src, from, to - 1, radix);
        assert(prev * radix >= 0) by (nonlinear_arith)
            requires
                prev >= 0,
                radix >= 2,
        ;
    }
}

/// An identifier's end never lies before its start.
pub proof fn lemma_ident_end_ge(src: Seq<char>, i: int)
    ensures
        ident_end(src, i) >= i,
    decreases src.len() - i,
{
    if !(i < 0 || i >= src.len()) && is_ident_char(src[i]) {
        lemma_ident_end_ge(src, i + 1);
    }
}

/// A digit run's end never lies before its start.
pub proof fn lemma_digit_run_end_ge(src: Seq<char>, i: int, radix: u32)
    ensures
        digit_run_end(src, i, radix) >= i,
    decreases src.len() - i,
{
    if !(i < 0 || i >= src.len()) && digit_of_spec(src[i], radix) is Some {
        lemma_digit_run_end_ge(src, i + 1, radix);
    }
}

/// A string body's stop never lies before its start.
pub proof fn lemma_string_end_ge(src: Seq<char>, i: int, quote: char)
    ensures
        string_end(src, i, quote) >= i,
    decreases src.len() - i,
{
    if !(i < 0 || i >= src.len() || src[i] == quote || src[i] == '\n') {
        if src[i] != '\\' {
            lemma_string_end_ge(src, i + 1, quote);
        } else if i + 1 < src.len() {
            lemma_string_end_ge(src, i + 2, quote);
        }
    }
}

/// The token scanner.
pub struct Scanner {
    pub source: String,
    pub cursor: Cursor,
}

impl Scanner {
    /// The cursor walks the scanner's own source text.
    pub open spec fn wf(&self) -> bool {
        self.cursor.wf() && self.cursor.src() == self.source@
    }

    /// A scanner at the start of `source`.
    pub fn new(source: &str) -> (r: Self)
        ensures
            r.wf(),
            r.cursor.src() == source@,
            r.cursor.current == 0 && r.cursor.start == 0 && r.cursor.line == 1,
    {
        Scanner { source: source.to_owned(), cursor: Cursor::new(source) }
    }

    /// Consumes spaces, carriage returns and tabs.
    fn skip_whitespace(&mut self)
        requires
            old(self).wf(),
        ensures
            final (self).wf(),
            final (self).source == old(self).source,
            final (self).cursor.src() == old(self).cursor.src(),
            final (self).cursor.start == old(self).cursor.start,
            final (self).cursor.line == old(self).cursor.line,
            final (self).cursor.current == ws_end(old(self).cursor.src(), old(self).cursor.current as int),
    {
        loop
            invariant
                self.wf(),
                self.source == old(self).source,
                self.cursor.start == old(self).cursor.start,
                self.cursor.line == old(self).cursor.line,
                ws_end(self.cursor.src(), self.cursor.current as int) == ws_end(
                    old(self).cursor.src(),
                    old(self).cursor.current as int,
                ),
                self.cursor.src() == old(self).cursor.src(),
            decreases self.cursor.src().len() - self.cursor.current,
        {
            match self.cursor.peek() {
                Some(c) => {
                    if c == ' ' || c == '\r' || c == '\t' {
                        self.cursor.advance();
                    } else {
                        return ;
                    }
                },
                None => {
                    return ;
                },
            }
        }
    }

    /// Consumes everything up to (not including) the next line break.
    fn scan_comment(&mut self)
        requires
            old(self).wf(),
        ensures
            final (self).wf(),
            final (self).source == old(self).source,
            final (self).cursor.src() == old(self).cursor.src(),
            final (self).cursor.start == old(self).cursor.start,
            final (self).cursor.line == old(self).cursor.line,
            final (self).cursor.current == comment_end(
                old(self).cursor.src(),
                old(self).cursor.current as int,
            ),
    {
        loop
            invariant
                self.wf(),
                self.source == old(self).source,
                self.cursor.start == old(self).cursor.start,
                self.cursor.line == old(self).cursor.line,
                self.cursor.src() == old(self).cursor.src(),
                comment_end(self.cursor.src(), self.cursor.current as int) == comment_end(
                    old(self).cursor.src(),
                    old(self).cursor.current as int,
                ),
            decreases self.cursor.src().len() - self.cursor.current,
        {
            match self.cursor.peek() {
                Some(c) => {
                    if c == '\n' {
                        return ;
                    }
                    self.cursor.advance();
                },
                None => {
                    return ;
                },
            }
        }
    }

    /// Consumes the rest of an identifier: ASCII letters, digits, `_`.
    fn scan_identifier(&mut self)
        requires
            old(self).wf(),
        ensures
            final (self).wf(),
            final (self).source == old(self).source,
            final (self).cursor.src() == old(self).cursor.src(),
            final (self).cursor.start == old(self).cursor.start,
            final (self).cursor.line == old(self).cursor.line,
            final (self).cursor.current == ident_end(
                old(self).cursor.src(),
                old(self).cursor.current as int,
            ),
    {
        loop
            invariant
                self.wf(),
                self.source == old(self).source,
                self.cursor.start == old(self).cursor.start,
                self.cursor.line == old(self).cursor.line,
                self.cursor.src() == old(self).cursor.src(),
                ident_end(self.cursor.src(), self.cursor.current as int) == ident_end(
                    old(self).cursor.src(),
                    old(self).cursor.current as int,
                ),
            decreases self.cursor.src().len() - self.cursor.current,
        {
            match self.cursor.peek() {
                Some(c) => {
                    if is_ident_char(c) {
                        self.cursor.advance();
                    } else {
                        return ;
                    }
                },
                None => {
                    return ;
                },
            }
        }
    }

    /// Consumes the digit run under the cursor and evaluates the whole
    /// literal (whose consumed head, after the `$`/`%` symbol if any,
    /// must be digits too). `NumberExpected` when a symbol has no digits;
    /// an overflow past 64 bits is refused.
    fn scan_number(&mut self, radix: u32, start_offset: usize) -> (r: ScannerResult<u64>)
        requires
            old(self).wf(),
            radix == 2 || radix == 10 || radix == 16,
            old(self).cursor.start + start_offset <= old(self).cursor.current,
            forall|k: int|
                old(self).cursor.start + start_offset <= k < old(self).cursor.current
                    ==> digit_of_spec(#[trigger] old(self).cursor.src()[k], radix) is Some,
        ensures
            final (self).wf(),
            final (self).source == old(self).source,
            final (self).cursor.src() == old(self).cursor.src(),
            final (self).cursor.start == old(self).cursor.start,
            final (self).cursor.line == old(self).cursor.line,
            final (self).cursor.current == digit_run_end(
                old(self).cursor.src(),
                old(self).cursor.current as int,
                radix,
            ),
            ({
                let src = old(self).cursor.src();
                let ps = old(self).cursor.start + start_offset;
                let e = digit_run_end(src, old(self).cursor.current as int, radix);
                let v = digits_val(src, ps as int, e, radix);
                let empty_run = e - old(self).cursor.start == 1 && radix != 10;
                match r {
                    Ok(u) => !empty_run && u == v,
                    Err(err) => {
                        &&& (err matches ScannerError::NumberExpected { symbol, .. } ==> (
                        empty_run && symbol == (if radix == 16 {
                            '$'
                        } else {
                            '%'
                        })))
                        &&& (err matches ScannerError::Generic(_) ==> (!empty_run && v
                            > u64::MAX))
                        &&& (err matches ScannerError::NumberExpected { .. } || err
                            matches ScannerError::Generic(_))
                        &&& (empty_run ==> err matches ScannerError::NumberExpected { .. })
                    },
                }
            }),
    {
        let ghost src = self.cursor.src();
        let ghost e = digit_run_end(src, old(self).cursor.current as int, radix);
        loop
            invariant
                self.wf(),
                self.source == old(self).source,
                self.cursor.start == old(self).cursor.start,
                self.cursor.line == old(self).cursor.line,
                self.cursor.src() == src,
                old(self).cursor.current <= self.cursor.current,
                digit_run_end(src, self.cursor.current as int, radix) == e,
                forall|k: int|
                    old(self).cursor.current <= k < self.cursor.current ==> digit_of_spec(
                        #[trigger] src[k],
                        radix,
                    ) is Some,
            ensures
                self.cursor.current == e,
            decreases self.cursor.src().len() - self.cursor.current,
        {
            match self.cursor.peek() {
                Some(c) => {
                    if digit_of(c, radix).is_some() {
                        self.cursor.advance();
                    } else {
                        break ;
                    }
                },
                None => {
                    break ;
                },
            }
        }
        proof {
            assert(self.cursor.current == e);
        }
        if self.cursor.current - self.cursor.start == 1 && radix != 10 {
            return Err(
                ScannerError::NumberExpected {
                    line: self.cursor.line,
                    column: self.cursor.column,
                    symbol: if radix == 16 {
                        '$'
                    } else {
                        '%'
                    },
                },
            );
        }
        let ps = self.cursor.start + start_offset;
        let mut value: u64 = 0;
        let mut j: usize = ps;
        proof {
            lemma_digits_val_monotone(src, ps as int, ps as int, e, radix);
        }
        while j < self.cursor.current
            invariant
                self.wf(),
                self.cursor.src() == src,
                self.source == old(self).source,
                self.cursor.start == old(self).cursor.start,
                self.cursor.line == old(self).cursor.line,
                src == old(self).cursor.src(),
                e == digit_run_end(src, old(self).cursor.current as int, radix),
                !(e - self.cursor.start == 1 && radix != 10),
                ps <= j <= self.cursor.current == e <= src.len(),
                ps == old(self).cursor.start + start_offset,
                radix == 2 || radix == 10 || radix == 16,
                forall|k: int|
                    ps <= k < e ==> digit_of_spec(#[trigger] src[k], radix) is Some,
                value == digits_val(src, ps as int, j as int, radix),
            decreases e - j,
        {
            let c = self.cursor.chars[j];
            let d = match digit_of(c, radix) {
                Some(d) => d,
                None => 0,
            };
            let next = match value.checked_mul(radix as u64) {
                Some(m) => m.checked_add(d as u64),
                None => None,
            };
            match next {
                Some(nv) => {
                    value = nv;
                },
                None => {
                    proof {
                        lemma_digits_val_monotone(src, ps as int, j + 1, e, radix);
                    }
                    return Err(ScannerError::Generic(self.source.substring_char(
                        self.cursor.start,
                        self.cursor.current,
                    ).to_owned()));
                },
            }
            j = j + 1;
        }
        Ok(value)
    }

    /// Consumes a string body and its closing quote, unescaping `\n`, `\r`,
    /// `\t`, quotes and backslashes; refused when the line or the text ends
    /// before the closing quote.
    fn scan_string(&mut self, quote: char) -> (r: ScannerResult<String>)
        requires
            old(self).wf(),
        ensures
            final (self).wf(),
            final (self).source == old(self).source,
            final (self).cursor.src() == old(self).cursor.src(),
            final (self).cursor.start == old(self).cursor.start,
            final (self).cursor.line == old(self).cursor.line,
            ({
                let src = old(self).cursor.src();
                let p0 = old(self).cursor.current as int;
                let stop = string_end(src, p0, quote);
                match r {
                    Ok(st) => {
                        &&& st@ == unescape(src, p0, quote)
                        &&& stop < src.len() && src[stop] == quote
                        &&& final (self).cursor.current == stop + 1
                    },
                    Err(err) => {
                        &&& err matches ScannerError::UnterminatedString { quote: q, .. } && q
                            == quote
                        &&& (stop >= src.len() || src[stop] == '\n')
                        &&& final (self).cursor.current == stop
                    },
                }
            }),
    {
        let ghost src = self.cursor.src();
        let ghost p0 = old(self).cursor.current as int;
        let mut string = String::new();
        loop
            invariant
                self.wf(),
                self.source == old(self).source,
                self.cursor.start == old(self).cursor.start,
                self.cursor.line == old(self).cursor.line,
                self.cursor.src() == src,
                p0 <= self.cursor.current,
                string_end(src, self.cursor.current as int, quote) == string_end(src, p0, quote),
                unescape(src, p0, quote) == string@ + unescape(
                    src,
                    self.cursor.current as int,
                    quote,
                ),
            ensures
                self.cursor.current as int == string_end(src, self.cursor.current as int, quote),
            decreases src.len() - self.cursor.current,
        {
            let c = match self.cursor.peek() {
                Some(c) => c,
                None => {
                    break ;
                },
            };
            if c == quote || c == '\n' {
                break ;
            }
            let cap = self.cursor.chars.len();
            let at = self.cursor.current;
            self.cursor.advance();
            if c != '\\' {
                string.append(self.source.as_str().substring_char(at, at + 1));
                continue ;
            }
            match self.cursor.peek() {
                Some(e) => {
                    if e == 'n' {
                        string.append("\n");
                    } else if e == 'r' {
                        string.append("\r");
                    } else if e == 't' {
                        string.append("\t");
                    } else {
                        let at2 = self.cursor.current;
                        string.append(self.source.as_str().substring_char(at2, at2 + 1));
                    }
                    proof {
                        reveal_strlit("\n");
                        reveal_strlit("\r");
                        reveal_strlit("\t");
                    }
                    self.cursor.advance();
                },
                None => {
                    continue ;
                },
            }
        }
        let stopped = self.cursor.peek();
        match stopped {
            None => Err(
                ScannerError::UnterminatedString {
                    line: self.cursor.line,
                    column: self.cursor.column,
                    quote,
                },
            ),
            Some(c) => {
                if c == '\n' {
                    Err(
                        ScannerError::UnterminatedString {
                            line: self.cursor.line,
                            column: self.cursor.column,
                            quote,
                        },
                    )
                } else {
                    proof {
                        lemma_string_end_ge(src, self.cursor.current + 1, quote);
                        if self.cursor.current + 2 <= src.len() {
                            lemma_string_end_ge(src, self.cursor.current + 2, quote);
                        }
                        assert(string@ + Seq::<char>::empty() =~= string@);
                    }
                    self.cursor.advance();
                    Ok(string)
                }
            },
        }
    }
}

} // verus!

verus! {

/// The kind of a one-character punctuation token, if `c` starts one.
pub open spec fn single_kind(c: char) -> Option<TokenKind> {
    match c {
        ')' => Some(TokenKind::CloseParen),
        ',' => Some(TokenKind::Comma),
        ':' => Some(TokenKind::Colon),
        '#' => Some(TokenKind::Hash),
        '-' => Some(TokenKind::Minus),
        '(' => Some(TokenKind::OpenParen),
        '+' => Some(TokenKind::Plus),
        '/' => Some(TokenKind::Slash),
        '*' => Some(TokenKind::Star),
        _ => None,
    }
}

impl Scanner {
    /// A token of the given kind and value located at the span in progress.
    fn make_token(&self, kind: TokenKind, value: Option<TokenValue>) -> (t: Token)
        requires
            self.cursor.start <= self.cursor.current < usize::MAX,
        ensures
            t.kind == kind,
            t.value == value,
            t.location.start == self.cursor.start,
            t.location.line == self.cursor.line,
    {
        Token { kind, value, location: self.cursor.location() }
    }

    /// Scans one token: leading spaces are consumed, then the token that
    /// the next character starts — punctuation, a newline, a comment, a
    /// number, a string, a `.directive`, an instruction mnemonic, or an
    /// identifier; the end of the text gives an EOF token. The ensures
    /// below pin, case by case over that character, the token's kind and
    /// value, where the cursor stops, and which input earns which error.
    #[verifier::rlimit(100)]
    pub fn scan_token(&mut self) -> (r: ScannerResult<Token>)
        requires
            old(self).wf(),
            old(self).cursor.line < usize::MAX,
            old(self).cursor.src().len() < usize::MAX,
        ensures
            final (self).wf(),
            final (self).source == old(self).source,
            final (self).cursor.src() == old(self).cursor.src(),
            ({
                let src = old(self).cursor.src();
                let i = ws_end(src, old(self).cursor.current as int);
                let me = *final (self);
                if i == src.len() {
                    r matches Ok(t) && t.kind == TokenKind::EOF && t.value is None
                        && me.cursor.current == i
                } else {
                    let c = src[i];
                    if single_kind(c) is Some {
                        r matches Ok(t) && Some(t.kind) == single_kind(c) && t.value is None
                            && t.location.start == i && me.cursor.current == i + 1
                    } else if c == '\n' {
                        r matches Ok(t) && t.kind == TokenKind::NewLine && t.value is None
                            && me.cursor.current == i + 1 && me.cursor.line == old(
                            self,
                        ).cursor.line + 1
                    } else if c == ';' {
                        r matches Ok(t) && t.kind == TokenKind::Comment && t.value is None
                            && me.cursor.current == comment_end(src, i + 1)
                    } else if c == '%' || c == '$' {
                        let radix: u32 = if c == '$' {
                            16
                        } else {
                            2
                        };
                        let e = digit_run_end(src, i + 1, radix);
                        let v = digits_val(src, i + 1, e, radix);
                        match r {
                            Ok(t) => {
                                &&& t.kind == TokenKind::Number
                                &&& t.value == Some(TokenValue::Number(v as u64))
                                &&& e > i + 1 && v <= u64::MAX
                                &&& me.cursor.current == e
                            },
                            Err(err) => {
                                &&& (err matches ScannerError::NumberExpected { .. } <==> e == i
                                    + 1)
                                &&& (err matches ScannerError::Generic(_) ==> v > u64::MAX)
                            },
                        }
                    } else if crate::lex::chars::is_ascii_digit(c) {
                        let e = digit_run_end(src, i as int, 10);
                        let v = digits_val(src, i as int, e, 10);
                        match r {
                            Ok(t) => {
                                &&& t.kind == TokenKind::Number
                                &&& t.value == Some(TokenValue::Number(v as u64))
                                &&& v <= u64::MAX
                                &&& me.cursor.current == e
                            },
                            Err(err) => err matches ScannerError::Generic(_) && v > u64::MAX,
                        }
                    } else if c == '\'' || c == '"' {
                        let stop = string_end(src, i + 1, c);
                        match r {
                            Ok(t) => {
                                &&& t.kind == TokenKind::String
                                &&& (t.value matches Some(TokenValue::String(st)) && st@
                                    == unescape(src, i + 1, c))
                                &&& stop < src.len() && src[stop] == c
                                &&& me.cursor.current == stop + 1
                            },
                            Err(err) => {
                                &&& err matches ScannerError::UnterminatedString { .. }
                                &&& (stop >= src.len() || src[stop] == '\n')
                            },
                        }
                    } else if c == '.' {
                        let e = ident_end(src, i + 1);
                        match r {
                            Ok(t) => {
                                &&& t.kind == TokenKind::Directive
                                &&& (t.value matches Some(TokenValue::Directive(d)) && Some(d)
                                    == directive_spec(src.subrange(i + 1, e)))
                                &&& me.cursor.current == e
                            },
                            Err(err) => {
                                &&& err matches ScannerError::UnknownDirective { .. }
                                &&& directive_spec(src.subrange(i + 1, e)) is None
                            },
                        }
                    } else if crate::lex::chars::is_ascii_alpha(c) {
                        let e = ident_end(src, i + 1);
                        r matches Ok(t) && me.cursor.current == e && (match mnemonic_spec(
                            src.subrange(i as int, e),
                        ) {
                            Some(m) => t.kind == TokenKind::Instruction && t.value == Some(
                                TokenValue::Instruction(m),
                            ),
                            None => t.kind == TokenKind::Identifier && t.value is None,
                        })
                    } else {
                        r matches Err(err) && err matches ScannerError::UnknownCharacter {
                            character,
                            ..
                        } && character == c
                    }
                }
            }),
    {
        self.skip_whitespace();
        self.cursor.sync();
        let cap = self.cursor.chars.len();
        let c = match self.cursor.advance() {
            None => {
                return Ok(self.make_token(TokenKind::EOF, None));
            },
            Some(c) => c,
        };
        match c {
            ')' => Ok(self.make_token(TokenKind::CloseParen, None)),
            ',' => Ok(self.make_token(TokenKind::Comma, None)),
            ':' => Ok(self.make_token(TokenKind::Colon, None)),
            '#' => Ok(self.make_token(TokenKind::Hash, None)),
            '-' => Ok(self.make_token(TokenKind::Minus, None)),
            '(' => Ok(self.make_token(TokenKind::OpenParen, None)),
            '+' => Ok(self.make_token(TokenKind::Plus, None)),
            '/' => Ok(self.make_token(TokenKind::Slash, None)),
            '*' => Ok(self.make_token(TokenKind::Star, None)),
            '\n' => {
                let token = self.make_token(TokenKind::NewLine, None);
                self.cursor.advance_line();
                Ok(token)
            },
            ';' => {
                self.scan_comment();
                Ok(self.make_token(TokenKind::Comment, None))
            },
            '%' => {
                proof {
                    lemma_digit_run_end_ge(self.cursor.src(), self.cursor.current as int, 2);
                }
                match self.scan_number(2, 1) {
                    Ok(v) => Ok(self.make_token(TokenKind::Number, Some(TokenValue::Number(v)))),
                    Err(e) => Err(e),
                }
            },
            '$' => {
                proof {
                    lemma_digit_run_end_ge(self.cursor.src(), self.cursor.current as int, 16);
                }
                match self.scan_number(16, 1) {
                    Ok(v) => Ok(self.make_token(TokenKind::Number, Some(TokenValue::Number(v)))),
                    Err(e) => Err(e),
                }
            },
            '\'' | '"' => {
                match self.scan_string(c) {
                    Ok(st) => Ok(self.make_token(TokenKind::String, Some(TokenValue::String(st)))),
                    Err(e) => Err(e),
                }
            },
            '.' => {
                self.scan_identifier();
                proof {
                    lemma_ident_end_ge(self.cursor.src(), self.cursor.start + 1);
                }
                let from = self.cursor.start + 1;
                let to = self.cursor.current;
                match directive_lookup(&self.cursor.chars, from, to) {
                    Some(d) => Ok(
                        self.make_token(TokenKind::Directive, Some(TokenValue::Directive(d))),
                    ),
                    None => Err(
                        ScannerError::UnknownDirective {
                            line: self.cursor.line,
                            column: self.cursor.column,
                            directive: self.source.substring_char(
                                self.cursor.start,
                                self.cursor.current,
                            ).to_owned(),
                        },
                    ),
                }
            },
            _ => {
                if crate::lex::chars::is_ascii_digit(c) {
                    return match self.scan_number(10, 0) {
                        Ok(v) => Ok(
                            self.make_token(TokenKind::Number, Some(TokenValue::Number(v))),
                        ),
                        Err(e) => Err(e),
                    };
                }
                if crate::lex::chars::is_ascii_alpha(c) {
                    self.scan_identifier();
                    let from = self.cursor.start;
                    let to = self.cursor.current;
                    return match mnemonic_lookup(&self.cursor.chars, from, to) {
                        Some(m) => Ok(
                            self.make_token(
                                TokenKind::Instruction,
                                Some(TokenValue::Instruction(m)),
                            ),
                        ),
                        None => Ok(self.make_token(TokenKind::Identifier, None)),
                    };
                }
                Err(
                    ScannerError::UnknownCharacter {
                        line: self.cursor.line,
                        column: self.cursor.column,
                        character: c,
                    },
                )
            },
        }
    }
}

} // verus!
