use vstd::prelude::*;

verus! {

/// Punctuation, written with one or two characters.
#[derive(Debug, Clone, Copy, PartialEq, Eq, Structural)]
pub enum Symbol {
    OpenParen,
    CloseParen,
    OpenBrace,
    CloseBrace,
    OpenBracket,
    CloseBracket,
    Colon,
    Semicolon,
    Comma,
    Dot,
    Arrow,
    Comment,
}

/// Arithmetic, comparison and logical operators.
#[derive(Debug, Clone, Copy, PartialEq, Eq, Structural)]
pub enum Operator {
    Add,
    Subtract,
    Multiply,
    Divide,
    Modulo,
    Less,
    Greater,
    Not,
    Equal,
    NotEqual,
    LessEqual,
    GreaterEqual,
    And,
    Or,
}

/// The assignment operator `=`.
#[derive(Debug, Clone, Copy, PartialEq, Eq, Structural)]
pub enum Assign {
    Assign,
}

/// Reserved statement keywords.
#[derive(Debug, Clone, Copy, PartialEq, Eq, Structural)]
pub enum Statement {
    Function,
    Let,
    Return,
    Println,
    Public,
    If,
    Else,
    While,
}

/// Built-in type names.
#[derive(Debug, Clone, Copy, PartialEq, Eq, Structural)]
pub enum TypeName {
    I32,
    I64,
    Bool,
    QuotedString,
    Void,
}

/// Literal payloads: a number as its decimal text, the contents of a quoted
/// string, or a bare identifier.
#[derive(Debug, Clone, PartialEq, Eq)]
pub enum TypeValue {
    Number(String),
    QuotedString(String),
    Identifier(String),
}

/// One classified token.
#[derive(Debug, Clone, PartialEq, Eq)]
pub enum Token {
    Symbol(Symbol),
    Operator(Operator),
    Assign(Assign),
    Statement(Statement),
    TypeName(TypeName),
    TypeValue(TypeValue),
}

/// A literal payload with its text as a sequence of characters.
pub ghost enum ValueModel {
    Number(Seq<char>),
    QuotedString(Seq<char>),
    Identifier(Seq<char>),
}

/// A token with its text payloads as sequences of characters.
pub ghost enum TokenModel {
    Symbol(Symbol),
    Operator(Operator),
    Assign(Assign),
    Statement(Statement),
    TypeName(TypeName),
    TypeValue(ValueModel),
}

impl View for TypeValue {
    type V = ValueModel;

    open spec fn view(&self) -> ValueModel {
        match self {
            TypeValue::Number(s) => ValueModel::Number(s@),
            TypeValue::QuotedString(s) => ValueModel::QuotedString(s@),
            TypeValue::Identifier(s) => ValueModel::Identifier(s@),
        }
    }
}

impl View for Token {
    type V = TokenModel;

    open spec fn view(&self) -> TokenModel {
        match self {
            Token::Symbol(s) => TokenModel::Symbol(*s),
            Token::Operator(o) => TokenModel::Operator(*o),
            Token::Assign(a) => TokenModel::Assign(*a),
            Token::Statement(s) => TokenModel::Statement(*s),
            Token::TypeName(t) => TokenModel::TypeName(*t),
            Token::TypeValue(v) => TokenModel::TypeValue(v@),
        }
    }
}

/// The models of a sequence of tokens.
pub open spec fn tokens_view(ts: Seq<Token>) -> Seq<TokenModel> {
    ts.map_values(|t: Token| t@)
}

/// Tokens of two characters: `a` followed by `b`.
pub open spec fn spec_double_symbol(a: char, b: char) -> Option<TokenModel> {
    if a == '-' && b == '>' {
        Some(TokenModel::Symbol(Symbol::Arrow))
    } else if a == '/' && b == '/' {
        Some(TokenModel::Symbol(Symbol::Comment))
    } else if a == '=' && b == '=' {
        Some(TokenModel::Operator(Operator::Equal))
    } else if a == '!' && b == '=' {
        Some(TokenModel::Operator(Operator::NotEqual))
    } else if a == '<' && b == '=' {
        Some(TokenModel::Operator(Operator::LessEqual))
    } else if a == '>' && b == '=' {
        Some(TokenModel::Operator(Operator::GreaterEqual))
    } else if a == '&' && b == '&' {
        Some(TokenModel::Operator(Operator::And))
    } else if a == '|' && b == '|' {
        Some(TokenModel::Operator(Operator::Or))
    } else {
        None
    }
}

/// Single-character punctuation.
pub open spec fn spec_symbol(c: char) -> Option<Symbol> {
    if c == '(' {
        Some(Symbol::OpenParen)
    } else if c == ')' {
        Some(Symbol::CloseParen)
    } else if c == '{' {
        Some(Symbol::OpenBrace)
    } else if c == '}' {
        Some(Symbol::CloseBrace)
    } else if c == '[' {
        Some(Symbol::OpenBracket)
    } else if c == ']' {
        Some(Symbol::CloseBracket)
    } else if c == ':' {
        Some(Symbol::Colon)
    } else if c == ';' {
        Some(Symbol::Semicolon)
    } else if c == ',' {
        Some(Symbol::Comma)
    } else if c == '.' {
        Some(Symbol::Dot)
    } else {
        None
    }
}

/// Single-character operators, the assignment `=` among them.
pub open spec fn spec_operator(c: char) -> Option<TokenModel> {
    if c == '+' {
        Some(TokenModel::Operator(Operator::Add))
    } else if c == '-' {
        Some(TokenModel::Operator(Operator::Subtract))
    } else if c == '*' {
        Some(TokenModel::Operator(Operator::Multiply))
    } else if c == '/' {
        Some(TokenModel::Operator(Operator::Divide))
    } else if c == '%' {
        Some(TokenModel::Operator(Operator::Modulo))
    } else if c == '<' {
        Some(TokenModel::Operator(Operator::Less))
    } else if c == '>' {
        Some(TokenModel::Operator(Operator::Greater))
    } else if c == '!' {
        Some(TokenModel::Operator(Operator::Not))
    } else if c == '=' {
        Some(TokenModel::Assign(Assign::Assign))
    } else {
        None
    }
}

/// Statement keywords.
pub open spec fn spec_statement(w: Seq<char>) -> Option<Statement> {
    if w == "fn"@ {
        Some(Statement::Function)
    } else if w == "let"@ {
        Some(Statement::Let)
    } else if w == "return"@ {
        Some(Statement::Return)
    } else if w == "println"@ {
        Some(Statement::Println)
    } else if w == "public"@ {
        Some(Statement::Public)
    } else if w == "if"@ {
        Some(Statement::If)
    } else if w == "else"@ {
        Some(Statement::Else)
    } else if w == "while"@ {
        Some(Statement::While)
    } else {
        None
    }
}

/// Built-in type-name keywords.
pub open spec fn spec_type_name(w: Seq<char>) -> Option<TypeName> {
    if w == "i32"@ {
        Some(TypeName::I32)
    } else if w == "i64"@ {
        Some(TypeName::I64)
    } else if w == "bool"@ {
        Some(TypeName::Bool)
    } else if w == "String"@ {
        Some(TypeName::QuotedString)
    } else if w == "Void"@ {
        Some(TypeName::Void)
    } else {
        None
    }
}

/// A word is a statement keyword first, a type name second, and an identifier
/// otherwise.
pub open spec fn spec_classify_word(w: Seq<char>) -> TokenModel {
    match spec_statement(w) {
        Some(s) => TokenModel::Statement(s),
        None => match spec_type_name(w) {
            Some(t) => TokenModel::TypeName(t),
            None => TokenModel::TypeValue(ValueModel::Identifier(w)),
        },
    }
}

/// The model of an optional token.
pub open spec fn opt_view(o: Option<Token>) -> Option<TokenModel> {
    match o {
        Some(t) => Some(t@),
        None => None,
    }
}

/// Looks up the two-character token `a` `b`.
pub fn double_symbol_to_token(a: char, b: char) -> (r: Option<Token>)
    ensures
        opt_view(r) == spec_double_symbol(a, b),
{
    if a == '-' && b == '>' {
        Some(Token::Symbol(Symbol::Arrow))
    } else if a == '/' && b == '/' {
        Some(Token::Symbol(Symbol::Comment))
    } else if a == '=' && b == '=' {
        Some(Token::Operator(Operator::Equal))
    } else if a == '!' && b == '=' {
        Some(Token::Operator(Operator::NotEqual))
    } else if a == '<' && b == '=' {
        Some(Token::Operator(Operator::LessEqual))
    } else if a == '>' && b == '=' {
        Some(Token::Operator(Operator::GreaterEqual))
    } else if a == '&' && b == '&' {
        Some(Token::Operator(Operator::And))
    } else if a == '|' && b == '|' {
        Some(Token::Operator(Operator::Or))
    } else {
        None
    }
}

/// Looks up the single-character punctuation `c`.
pub fn symbol_to_token(c: char) -> (r: Option<Token>)
    ensures
        opt_view(r) == (match spec_symbol(c) {
            Some(s) => Some(TokenModel::Symbol(s)),
            None => None::<TokenModel>,
        }),
{
    let s = if c == '(' {
        Symbol::OpenParen
    } else if c == ')' {
        Symbol::CloseParen
    } else if c == '{' {
        Symbol::OpenBrace
    } else if c == '}' {
        Symbol::CloseBrace
    } else if c == '[' {
        Symbol::OpenBracket
    } else if c == ']' {
        Symbol::CloseBracket
    } else if c == ':' {
        Symbol::Colon
    } else if c == ';' {
        Symbol::Semicolon
    } else if c == ',' {
        Symbol::Comma
    } else if c == '.' {
        Symbol::Dot
    } else {
        return None;
    };
    Some(Token::Symbol(s))
}

/// Looks up the single-character operator `c`.
pub fn operator_to_token(c: char) -> (r: Option<Token>)
    ensures
        opt_view(r) == spec_operator(c),
{
    if c == '+' {
        Some(Token::Operator(Operator::Add))
    } else if c == '-' {
        Some(Token::Operator(Operator::Subtract))
    } else if c == '*' {
        Some(Token::Operator(Operator::Multiply))
    } else if c == '/' {
        Some(Token::Operator(Operator::Divide))
    } else if c == '%' {
        Some(Token::Operator(Operator::Modulo))
    } else if c == '<' {
        Some(Token::Operator(Operator::Less))
    } else if c == '>' {
        Some(Token::Operator(Operator::Greater))
    } else if c == '!' {
        Some(Token::Operator(Operator::Not))
    } else if c == '=' {
        Some(Token::Assign(Assign::Assign))
    } else {
        None
    }
}

/// Whether the characters of `chars` from `start` to `end` spell `lit`.
fn span_matches(chars: &Vec<char>, start: usize, end: usize, lit: &str) -> (r: bool)
    requires
        start <= end <= chars.len(),
    ensures
        r == (chars@.subrange(start as int, end as int) == lit@),
{
    let n = lit.unicode_len();
    if end - start != n {
        return false;
    }
    let mut k: usize = 0;
    while k < n
        invariant
            k <= n,
            n == end - start,
            start <= end <= chars.len(),
            n == lit@.len(),
            forall|j: int| 0 <= j < k ==> chars@[start + j] == lit@[j],
        decreases n - k,
    {
        if chars[start + k] != lit.get_char(k) {
            proof {
                assert(chars@.subrange(start as int, end as int)[k as int] != lit@[k as int]);
            }
            return false;
        }
        k += 1;
    }
    proof {
        assert(chars@.subrange(start as int, end as int) =~= lit@);
    }
    true
}

/// Looks up the statement keyword spelled by `chars[start..end]`.
pub fn statement_to_token(chars: &Vec<char>, start: usize, end: usize) -> (r: Option<Statement>)
    requires
        start <= end <= chars.len(),
    ensures
        r == spec_statement(chars@.subrange(start as int, end as int)),
{
    if span_matches(chars, start, end, "fn") {
        Some(Statement::Function)
    } else if span_matches(chars, start, end, "let") {
        Some(Statement::Let)
    } else if span_matches(chars, start, end, "return") {
        Some(Statement::Return)
    } else if span_matches(chars, start, end, "println") {
        Some(Statement::Println)
    } else if span_matches(chars, start, end, "public") {
        Some(Statement::Public)
    } else if span_matches(chars, start, end, "if") {
        Some(Statement::If)
    } else if span_matches(chars, start, end, "else") {
        Some(Statement::Else)
    } else if span_matches(chars, start, end, "while") {
        Some(Statement::While)
    } else {
        None
    }
}

/// Looks up the type name spelled by `chars[start..end]`.
pub fn type_name_to_token(chars: &Vec<char>, start: usize, end: usize) -> (r: Option<TypeName>)
    requires
        start <= end <= chars.len(),
    ensures
        r == spec_type_name(chars@.subrange(start as int, end as int)),
{
    if span_matches(chars, start, end, "i32") {
        Some(TypeName::I32)
    } else if span_matches(chars, start, end, "i64") {
        Some(TypeName::I64)
    } else if span_matches(chars, start, end, "bool") {
        Some(TypeName::Bool)
    } else if span_matches(chars, start, end, "String") {
        Some(TypeName::QuotedString)
    } else if span_matches(chars, start, end, "Void") {
        Some(TypeName::Void)
    } else {
        None
    }
}

/// Relies on `String::push`, which appends one character to the string.
#[verifier::external_body]
pub(crate) fn push_char(s: &mut String, c: char)
    ensures
        final(s)@ == old(s)@.push(c),
{
    s.push(c);
}

/// The characters of `chars[start..end]` as a string.
pub fn text_of(chars: &Vec<char>, start: usize, end: usize) -> (r: String)
    requires
        start <= end <= chars.len(),
    ensures
        r@ == chars@.subrange(start as int, end as int),
{
    let mut s = String::new();
    let mut k: usize = start;
    while k < end
        invariant
            start <= k <= end <= chars.len(),
            s@ == chars@.subrange(start as int, k as int),
        decreases end - k,
    {
        push_char(&mut s, chars[k]);
        proof {
            assert(chars@.subrange(start as int, k + 1) =~= chars@.subrange(start as int, k as int).push(chars@[k as int]));
        }
        k += 1;
    }
    s
}

/// Classifies the word `chars[start..end]`: a statement keyword first, a type
/// name second, an identifier otherwise.
pub fn classify_word(chars: &Vec<char>, start: usize, end: usize) -> (r: Token)
    requires
        start <= end <= chars.len(),
    ensures
        r@ == spec_classify_word(chars@.subrange(start as int, end as int)),
{
    if let Some(s) = statement_to_token(chars, start, end) {
        return Token::Statement(s);
    }
    if let Some(t) = type_name_to_token(chars, start, end) {
        return Token::TypeName(t);
    }
    Token::TypeValue(TypeValue::Identifier(text_of(chars, start, end)))
}

} // verus!
