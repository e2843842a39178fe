use vstd::prelude::*;
use vstd::std_specs::iter::IteratorSpec;

use crate::diagnostic::{context_span, spec_context_span};
use crate::token::{
    classify_word, double_symbol_to_token, operator_to_token, spec_classify_word,
    spec_double_symbol, spec_operator, spec_symbol, symbol_to_token, text_of, tokens_view,
    Symbol, Token, TokenModel, TypeValue, ValueModel,
};

verus! {

/// The scanner's mode. Exactly one is active at each step.
#[derive(Debug, Clone, Copy, PartialEq, Eq, Structural)]
pub enum ScanState {
    /// At a token boundary.
    Empty,
    /// A lexeme has begun and is not yet known to be a number, string or word.
    Default,
    Number,
    Identifier,
    QuotedString,
    /// A two-character token was just emitted; its second character is skipped.
    PostDoubleSymbol,
    Comment,
}

/// The kind of a lexical error, with the offending text where there is one.
#[derive(Debug, Clone, PartialEq, Eq)]
pub enum LexError {
    InvalidCharacter(char),
    InvalidTypeName(String),
    InvalidNumber(String),
    InvalidIdentifier(String),
    InvalidOperator(String),
    InvalidSymbol(String),
    InvalidStatement(String),
    InvalidDoubleSymbol(String),
    ExpectedQuote,
}

/// A lexical error, positioned at `line` and `column`, with the span
/// `start..end` of the lexeme that was pending.
///
/// All four count characters (Unicode scalar values), not bytes: `start` and
/// `end` index the source's characters, and `column` is one more than the
/// characters read since the last newline.
#[derive(Debug, Clone, PartialEq, Eq)]
pub struct LexicalError {
    pub line: usize,
    pub column: usize,
    pub start: usize,
    pub end: usize,
    pub message: LexError,
}

/// The scanner's state after some prefix of the source: its mode, where the
/// pending lexeme starts, and the tokens emitted so far.
pub ghost struct ScanModel {
    pub state: ScanState,
    pub start: int,
    pub tokens: Seq<TokenModel>,
}

/// Rust's `char::is_whitespace`: the Unicode `White_Space` property.
pub open spec fn spec_is_whitespace(c: char) -> bool {
    let u = c as u32;
    (0x09 <= u <= 0x0D) || u == 0x20 || u == 0x85 || u == 0xA0 || u == 0x1680 || (0x2000 <= u
        <= 0x200A) || u == 0x2028 || u == 0x2029 || u == 0x202F || u == 0x205F || u == 0x3000
}

/// A decimal digit.
pub open spec fn spec_is_digit(c: char) -> bool {
    0x30 <= c as u32 <= 0x39
}

/// A character that may begin a word: an ASCII letter or `_`.
pub open spec fn spec_is_word_start(c: char) -> bool {
    (0x41 <= c as u32 <= 0x5A) || (0x61 <= c as u32 <= 0x7A) || c == '_'
}

/// A character that may continue a word: an ASCII letter, a digit or `_`.
pub open spec fn spec_is_word_char(c: char) -> bool {
    spec_is_word_start(c) || spec_is_digit(c)
}

/// The character at `k`, if there is one.
pub open spec fn peek_at(src: Seq<char>, k: int) -> Option<char> {
    if 0 <= k < src.len() {
        Some(src[k])
    } else {
        None
    }
}

/// The lookahead is a digit.
pub open spec fn opt_is_digit(p: Option<char>) -> bool {
    match p {
        Some(d) => spec_is_digit(d),
        None => false,
    }
}

/// The lookahead may continue a word.
pub open spec fn opt_is_word_char(p: Option<char>) -> bool {
    match p {
        Some(d) => spec_is_word_char(d),
        None => false,
    }
}

/// The scanner before it has read anything.
pub open spec fn initial_model() -> ScanModel {
    ScanModel { state: ScanState::Empty, start: 0, tokens: Seq::empty() }
}

/// What happens to a character `c`, followed by `p`, that starts a fresh
/// lexeme: a two-character token (a comment opener switches to `Comment`), or
/// a one-character symbol or operator. `None` if it is none of these.
pub open spec fn boundary_step(m: ScanModel, c: char, p: Option<char>, end: int) -> Option<
    ScanModel,
> {
    let double = match p {
        Some(q) => spec_double_symbol(c, q),
        None => None,
    };
    match double {
        Some(t) => if t == TokenModel::Symbol(Symbol::Comment) {
            Some(ScanModel { state: ScanState::Comment, ..m })
        } else {
            Some(ScanModel { state: ScanState::PostDoubleSymbol, tokens: m.tokens.push(t), ..m })
        },
        None => match spec_symbol(c) {
            Some(s) => Some(
                ScanModel { start: end, tokens: m.tokens.push(TokenModel::Symbol(s)), ..m },
            ),
            None => match spec_operator(c) {
                Some(t) => Some(ScanModel { start: end, tokens: m.tokens.push(t), ..m }),
                None => None,
            },
        },
    }
}

/// Emits `t`, ends the pending lexeme at `end` and returns to `Empty`.
pub open spec fn emit(m: ScanModel, t: TokenModel, end: int) -> ScanModel {
    ScanModel { state: ScanState::Empty, start: end, tokens: m.tokens.push(t) }
}

/// Accumulation of a number, a quoted string or a word, after the character
/// ending at `end` was added to the pending lexeme `src[m.start..end]`.
///
/// A number is a run of digits: a `-` at a token boundary is always the
/// subtraction operator, so no pending lexeme begins with it.
pub open spec fn lexeme_step(src: Seq<char>, m: ScanModel, c: char, p: Option<char>, end: int)
    -> ScanModel {
    let first = src[m.start];
    let st = if m.state == ScanState::Default && spec_is_digit(first) {
        ScanState::Number
    } else {
        m.state
    };
    if st == ScanState::Number && !opt_is_digit(p) {
        emit(m, TokenModel::TypeValue(ValueModel::Number(src.subrange(m.start, end))), end)
    } else if st == ScanState::Default && first == '"' {
        ScanModel { state: ScanState::QuotedString, ..m }
    } else if st == ScanState::QuotedString {
        if c == '"' {
            emit(
                m,
                TokenModel::TypeValue(ValueModel::QuotedString(src.subrange(m.start + 1, end - 1))),
                end,
            )
        } else {
            m
        }
    } else {
        let st2 = if st == ScanState::Default && spec_is_word_start(first) {
            ScanState::Identifier
        } else {
            st
        };
        if st2 == ScanState::Identifier && !opt_is_word_char(p) {
            emit(m, spec_classify_word(src.subrange(m.start, end)), end)
        } else {
            ScanModel { state: st2, ..m }
        }
    }
}

/// One step of the scanner on the character at `i`, with the character after
/// it as lookahead.
pub open spec fn step(src: Seq<char>, m: ScanModel, i: int) -> ScanModel {
    let c = src[i];
    let p = peek_at(src, i + 1);
    let end = i + 1;
    if m.state == ScanState::PostDoubleSymbol {
        ScanModel { state: ScanState::Empty, start: end, ..m }
    } else if m.state == ScanState::Comment {
        if c == '\n' {
            ScanModel { state: ScanState::Empty, start: end, ..m }
        } else {
            m
        }
    } else if spec_is_whitespace(c) && m.state != ScanState::QuotedString {
        ScanModel { state: ScanState::Empty, start: end, ..m }
    } else if end == m.start + 1 {
        match boundary_step(m, c, p, end) {
            Some(n) => n,
            None => lexeme_step(src, ScanModel { state: ScanState::Default, ..m }, c, p, end),
        }
    } else {
        lexeme_step(src, m, c, p, end)
    }
}

/// The scanner's state after the first `n` characters of `src`.
pub open spec fn scan_prefix(src: Seq<char>, n: nat) -> ScanModel
    decreases n,
{
    if n == 0 {
        initial_model()
    } else {
        step(src, scan_prefix(src, (n - 1) as nat), n - 1)
    }
}

/// The scanner's state after all of `src`.
pub open spec fn scan_all(src: Seq<char>) -> ScanModel {
    scan_prefix(src, src.len())
}

/// The result of lexing `src`: the tokens, or `None` where a quoted string is
/// left open at the end.
pub open spec fn lex(src: Seq<char>) -> Option<Seq<TokenModel>> {
    if scan_all(src).state == ScanState::QuotedString {
        None
    } else {
        Some(scan_all(src).tokens)
    }
}

/// The line after the first `n` characters: one more than the newlines read.
pub open spec fn line_at(src: Seq<char>, n: nat) -> nat
    decreases n,
{
    if n == 0 {
        1
    } else if src[n - 1] == '\n' {
        line_at(src, (n - 1) as nat) + 1
    } else {
        line_at(src, (n - 1) as nat)
    }
}

/// The column after the first `n` characters: one more than the characters
/// read since the last newline.
pub open spec fn column_at(src: Seq<char>, n: nat) -> nat
    decreases n,
{
    if n == 0 {
        1
    } else if src[n - 1] == '\n' {
        1
    } else {
        column_at(src, (n - 1) as nat) + 1
    }
}

/// What holds of every state the scanner reaches: the pending lexeme starts
/// within what was read and is empty exactly in `Empty`, and an open quoted string starts with its quote and
/// holds no other.
pub open spec fn model_inv(src: Seq<char>, m: ScanModel, n: int) -> bool {
    &&& 0 <= m.start <= n
    &&& (m.state == ScanState::Empty) == (m.start == n)
    &&& m.state == ScanState::QuotedString ==> {
        &&& m.start < n
        &&& src[m.start] == '"'
        &&& forall|k: int| m.start < k < n ==> src[k] != '"'
    }
}

pub proof fn lemma_scan_inv(src: Seq<char>, n: nat)
    requires
        n <= src.len(),
    ensures
        model_inv(src, scan_prefix(src, n), n as int),
    decreases n,
{
    if n > 0 {
        lemma_scan_inv(src, (n - 1) as nat);
    }
}

proof fn lemma_tokens_view_push(s: Seq<Token>, t: Token)
    ensures
        tokens_view(s.push(t)) == tokens_view(s).push(t@),
{
    assert(tokens_view(s.push(t)) =~= tokens_view(s).push(t@));
}

proof fn lemma_position_bounds(src: Seq<char>, n: nat)
    ensures
        line_at(src, n) <= n + 1,
        column_at(src, n) <= n + 1,
    decreases n,
{
    if n > 0 {
        lemma_position_bounds(src, (n - 1) as nat);
    }
}

fn is_whitespace(c: char) -> (r: bool)
    ensures
        r == spec_is_whitespace(c),
{
    let u = c as u32;
    (0x09 <= u && u <= 0x0D) || u == 0x20 || u == 0x85 || u == 0xA0 || u == 0x1680 || (0x2000 <= u
        && u <= 0x200A) || u == 0x2028 || u == 0x2029 || u == 0x202F || u == 0x205F || u == 0x3000
}

fn is_digit(c: char) -> (r: bool)
    ensures
        r == spec_is_digit(c),
{
    0x30 <= c as u32 && c as u32 <= 0x39
}

fn is_word_start(c: char) -> (r: bool)
    ensures
        r == spec_is_word_start(c),
{
    (0x41 <= c as u32 && c as u32 <= 0x5A) || (0x61 <= c as u32 && c as u32 <= 0x7A) || c == '_'
}

fn peek_is_digit(p: Option<char>) -> (r: bool)
    ensures
        r == opt_is_digit(p),
{
    match p {
        Some(d) => is_digit(d),
        None => false,
    }
}

fn peek_is_word_char(p: Option<char>) -> (r: bool)
    ensures
        r == opt_is_word_char(p),
{
    match p {
        Some(d) => is_word_start(d) || is_digit(d),
        None => false,
    }
}

/// The scanner over one source text.
pub struct Lexer<'a> {
    source: &'a str,
    chars: Vec<char>,
    tokens: Vec<Token>,
    state: ScanState,
    buffer_st: usize,
    buffer_ed: usize,
    line: usize,
    column: usize,
}

impl<'a> Lexer<'a> {
    /// The characters of the source.
    pub closed spec fn src(&self) -> Seq<char> {
        self.chars@
    }

    /// How many characters have been read.
    pub closed spec fn consumed(&self) -> nat {
        self.buffer_ed as nat
    }

    /// The scanner's state as the model sees it.
    pub closed spec fn model(&self) -> ScanModel {
        ScanModel {
            state: self.state,
            start: self.buffer_st as int,
            tokens: tokens_view(self.tokens@),
        }
    }

    /// The line the cursor is on, counted from 1.
    pub closed spec fn line_spec(&self) -> nat {
        self.line as nat
    }

    /// The cursor's column, counted from 1 in characters.
    pub closed spec fn column_spec(&self) -> nat {
        self.column as nat
    }

    /// The cursor is within the source and the position counters follow it.
    closed spec fn positioned(&self) -> bool {
        &&& self.chars@ == self.source@
        &&& self.chars.len() < usize::MAX
        &&& self.buffer_ed <= self.chars.len()
        &&& self.line == line_at(self.chars@, self.buffer_ed as nat)
        &&& self.column == column_at(self.chars@, self.buffer_ed as nat)
    }

    /// The scanner is in the state that the model gives for what it has read.
    pub closed spec fn wf(&self) -> bool {
        &&& self.positioned()
        &&& self.model() == scan_prefix(self.chars@, self.buffer_ed as nat)
    }

    /// A scanner at the start of `code`.
    pub fn new(code: &'a str) -> (r: Self)
        requires
            code@.len() < usize::MAX,
        ensures
            r.wf(),
            r.src() == code@,
            r.consumed() == 0,
            r.model() == initial_model(),
            r.line_spec() == 1,
            r.column_spec() == 1,
    {
        let mut chars: Vec<char> = Vec::new();
        let mut it = code.chars();
        proof {
            broadcast use vstd::string::group_string_axioms;

        }
        loop
            invariant
                chars@ + IteratorSpec::remaining(&it) == code@,
            ensures
                chars@ == code@,
            decreases code@.len() - chars.len(),
        {
            match it.next() {
                Some(ch) => {
                    proof {
                        broadcast use vstd::string::next_postcondition;

                    }
                    chars.push(ch);
                },
                None => {
                    proof {
                        broadcast use vstd::string::next_postcondition;

                    }
                    break;
                },
            }
        }
        let r = Lexer {
            source: code,
            chars,
            tokens: Vec::new(),
            state: ScanState::Empty,
            buffer_st: 0,
            buffer_ed: 0,
            line: 1,
            column: 1,
        };
        proof {
            assert(tokens_view(r.tokens@) =~= Seq::empty());
        }
        r
    }

    /// Reads the next character, advancing the cursor and the line and column
    /// counters; `None` at the end of the source.
    fn next_char(&mut self) -> (r: Option<char>)
        requires
            old(self).positioned(),
        ensures
            final(self).positioned(),
            final(self).chars == old(self).chars,
            final(self).model() == old(self).model(),
            old(self).buffer_ed < old(self).chars.len() ==> {
                &&& r == Some(old(self).chars@[old(self).buffer_ed as int])
                &&& final(self).buffer_ed == old(self).buffer_ed + 1
            },
            old(self).buffer_ed >= old(self).chars.len() ==> {
                &&& r is None
                &&& final(self).buffer_ed == old(self).buffer_ed
            },
    {
        if self.buffer_ed >= self.chars.len() {
            return None;
        }
        let ch = self.chars[self.buffer_ed];
        proof {
            lemma_position_bounds(self.chars@, (self.buffer_ed + 1) as nat);
        }
        if ch == '\n' {
            self.line = self.line + 1;
            self.column = 1;
        } else {
            self.column = self.column + 1;
        }
        self.buffer_ed = self.buffer_ed + 1;
        Some(ch)
    }

    /// The character after the cursor, without reading it.
    fn peek_char(&self) -> (r: Option<char>)
        ensures
            r == peek_at(self.chars@, self.buffer_ed as int),
    {
        if self.buffer_ed < self.chars.len() {
            Some(self.chars[self.buffer_ed])
        } else {
            None
        }
    }

    fn insert_token(&mut self, token: Token)
        ensures
            final(self).tokens@ == old(self).tokens@.push(token),
            tokens_view(final(self).tokens@) == tokens_view(old(self).tokens@).push(token@),
            final(self).source == old(self).source,
            final(self).chars == old(self).chars,
            final(self).state == old(self).state,
            final(self).buffer_st == old(self).buffer_st,
            final(self).buffer_ed == old(self).buffer_ed,
            final(self).line == old(self).line,
            final(self).column == old(self).column,
    {
        self.tokens.push(token);
        proof {
            assert(tokens_view(self.tokens@) =~= tokens_view(old(self).tokens@).push(token@));
        }
    }

    /// Handles the character `c` that was just read, with `peeked` after it.
    fn advance(&mut self, c: char, peeked: Option<char>)
        requires
            old(self).positioned(),
            old(self).buffer_ed >= 1,
            c == old(self).chars@[old(self).buffer_ed - 1],
            peeked == peek_at(old(self).chars@, old(self).buffer_ed as int),
            old(self).model() == scan_prefix(old(self).chars@, (old(self).buffer_ed - 1) as nat),
        ensures
            final(self).positioned(),
            final(self).chars == old(self).chars,
            final(self).buffer_ed == old(self).buffer_ed,
            final(self).model() == step(
                old(self).chars@,
                old(self).model(),
                old(self).buffer_ed - 1,
            ),
    {
        proof {
            lemma_scan_inv(self.chars@, (self.buffer_ed - 1) as nat);
        }
        let end = self.buffer_ed;
        if self.state == ScanState::PostDoubleSymbol {
            self.buffer_st = end;
            self.state = ScanState::Empty;
            return;
        }
        if self.state == ScanState::Comment {
            if c == '\n' {
                self.state = ScanState::Empty;
                self.buffer_st = end;
            }
            return;
        }
        if is_whitespace(c) && self.state != ScanState::QuotedString {
            self.buffer_st = end;
            self.state = ScanState::Empty;
            return;
        }
        if end == self.buffer_st + 1 {
            if let Some(p) = peeked {
                if let Some(t) = double_symbol_to_token(c, p) {
                    if matches!(t, Token::Symbol(Symbol::Comment)) {
                        self.state = ScanState::Comment;
                        return;
                    }
                    self.insert_token(t);
                    self.state = ScanState::PostDoubleSymbol;
                    return;
                }
            }
            if let Some(t) = symbol_to_token(c) {
                self.insert_token(t);
                self.buffer_st = end;
                return;
            }
            if let Some(t) = operator_to_token(c) {
                self.insert_token(t);
                self.buffer_st = end;
                return;
            }
            self.state = ScanState::Default;
        }
        self.lexeme(c, peeked);
    }

    /// Adds `c` to a pending number, quoted string or word, and emits it
    /// where it ends.
    fn lexeme(&mut self, c: char, peeked: Option<char>)
        requires
            old(self).positioned(),
            old(self).buffer_ed >= 1,
            c == old(self).chars@[old(self).buffer_ed - 1],
            peeked == peek_at(old(self).chars@, old(self).buffer_ed as int),
            old(self).buffer_st < old(self).buffer_ed,
            old(self).state == ScanState::QuotedString ==> old(self).buffer_st + 1
                < old(self).buffer_ed,
        ensures
            final(self).positioned(),
            final(self).chars == old(self).chars,
            final(self).buffer_ed == old(self).buffer_ed,
            final(self).model() == lexeme_step(
                old(self).chars@,
                old(self).model(),
                c,
                peeked,
                old(self).buffer_ed as int,
            ),
    {
        let start = self.buffer_st;
        let end = self.buffer_ed;
        let first = self.chars[start];
        if self.state == ScanState::Default && is_digit(first) {
            self.state = ScanState::Number;
        }
        if self.state == ScanState::Number && !peek_is_digit(peeked) {
            let text = text_of(&self.chars, start, end);
            self.insert_token(Token::TypeValue(TypeValue::Number(text)));
            self.buffer_st = end;
            self.state = ScanState::Empty;
            return;
        }
        if self.state == ScanState::Default && first == '"' {
            self.state = ScanState::QuotedString;
            return;
        }
        if self.state == ScanState::QuotedString {
            if c == '"' {
                let text = text_of(&self.chars, start + 1, end - 1);
                self.insert_token(Token::TypeValue(TypeValue::QuotedString(text)));
                self.buffer_st = end;
                self.state = ScanState::Empty;
            }
            return;
        }
        if self.state == ScanState::Default && is_word_start(first) {
            self.state = ScanState::Identifier;
        }
        if self.state == ScanState::Identifier && !peek_is_word_char(peeked) {
            let t = classify_word(&self.chars, start, end);
            self.insert_token(t);
            self.buffer_st = end;
            self.state = ScanState::Empty;
        }
    }

    /// Scans the rest of the source. Fails with `ExpectedQuote` exactly when
    /// the source ends inside a quoted string; the tokens are those of
    /// `scan_all` either way.
    pub fn run(&mut self) -> (r: Result<(), LexicalError>)
        requires
            old(self).wf(),
        ensures
            final(self).wf(),
            final(self).src() == old(self).src(),
            final(self).consumed() == final(self).src().len(),
            final(self).model() == scan_all(final(self).src()),
            final(self).line_spec() == line_at(final(self).src(), final(self).src().len()),
            final(self).column_spec() == column_at(final(self).src(), final(self).src().len()),
            r is Err <==> final(self).model().state == ScanState::QuotedString,
            r matches Err(e) ==> {
                &&& e.message == LexError::ExpectedQuote
                &&& e.line == final(self).line_spec()
                &&& e.column == final(self).column_spec()
                &&& e.start == final(self).model().start
                &&& e.end == final(self).consumed()
            },
    {
        loop
            invariant
                self.wf(),
                self.chars == old(self).chars,
            ensures
                self.wf(),
                self.chars == old(self).chars,
                self.buffer_ed == self.chars.len(),
            decreases self.chars.len() - self.buffer_ed,
        {
            let c = match self.next_char() {
                Some(ch) => ch,
                None => break,
            };
            let peeked = self.peek_char();
            self.advance(c, peeked);
        }
        if self.state == ScanState::QuotedString {
            return Err(
                LexicalError {
                    line: self.line,
                    column: self.column,
                    start: self.buffer_st,
                    end: self.buffer_ed,
                    message: LexError::ExpectedQuote,
                },
            );
        }
        Ok(())
    }

    /// The tokens emitted so far.
    pub fn get_tokens(&self) -> (r: Vec<Token>)
        ensures
            tokens_view(r@) == self.model().tokens,
    {
        let mut out: Vec<Token> = Vec::new();
        let mut k: usize = 0;
        while k < self.tokens.len()
            invariant
                k <= self.tokens.len(),
                tokens_view(out@) == tokens_view(self.tokens@.subrange(0, k as int)),
            decreases self.tokens.len() - k,
        {
            let t = copy_token(&self.tokens[k]);
            out.push(t);
            proof {
                assert(self.tokens@.subrange(0, k + 1) =~= self.tokens@.subrange(0, k as int).push(
                    self.tokens@[k as int],
                ));
                lemma_tokens_view_push(self.tokens@.subrange(0, k as int), self.tokens@[k as int]);
                assert(tokens_view(out@) =~= tokens_view(self.tokens@.subrange(0, k + 1)));
            }
            k += 1;
        }
        proof {
            assert(self.tokens@.subrange(0, k as int) =~= self.tokens@);
        }
        out
    }

    /// The source around the lexeme of `e`, as `spec_context_span` delimits it.
    pub fn error_context(&self, e: &LexicalError) -> (r: String)
        requires
            e.start <= e.end <= self.src().len(),
        ensures
            ({
                let span = spec_context_span(self.src().len() as int, e.start as int, e.end as int);
                r@ == self.src().subrange(span.0, span.1)
            }),
    {
        let (from, to) = context_span(self.chars.len(), e);
        text_of(&self.chars, from, to)
    }

    /// The number of characters in the source.
    pub fn source_len(&self) -> (r: usize)
        ensures
            r == self.src().len(),
    {
        self.chars.len()
    }

    /// The current line, counted from 1.
    pub fn line(&self) -> (r: usize)
        ensures
            r == self.line_spec(),
    {
        self.line
    }

    /// The current column, counted from 1 in characters.
    pub fn column(&self) -> (r: usize)
        ensures
            r == self.column_spec(),
    {
        self.column
    }
}

/// A copy of `t` with the same model.
fn copy_token(t: &Token) -> (r: Token)
    ensures
        r@ == t@,
{
    match t {
        Token::Symbol(s) => Token::Symbol(*s),
        Token::Operator(o) => Token::Operator(*o),
        Token::Assign(a) => Token::Assign(*a),
        Token::Statement(s) => Token::Statement(*s),
        Token::TypeName(n) => Token::TypeName(*n),
        Token::TypeValue(TypeValue::Number(s)) => Token::TypeValue(TypeValue::Number(s.clone())),
        Token::TypeValue(TypeValue::QuotedString(s)) => Token::TypeValue(
            TypeValue::QuotedString(s.clone()),
        ),
        Token::TypeValue(TypeValue::Identifier(s)) => Token::TypeValue(
            TypeValue::Identifier(s.clone()),
        ),
    }
}

} // verus!
