use nk_lexer::diagnostic::{caret_line, context_span, message_text, suggestion};
use nk_lexer::{Assign, LexError, LexicalError, Lexer, Operator, Statement, Symbol, Token, TypeName, TypeValue};

fn ident(s: &str) -> Token {
    Token::TypeValue(TypeValue::Identifier(s.to_string()))
}

fn number(s: &str) -> Token {
    Token::TypeValue(TypeValue::Number(s.to_string()))
}

fn quoted(s: &str) -> Token {
    Token::TypeValue(TypeValue::QuotedString(s.to_string()))
}

fn lex_ok(code: &str) -> Vec<Token> {
    let mut lexer = Lexer::new(code);
    assert!(lexer.run().is_ok());
    lexer.get_tokens()
}

#[test]
fn line_counting() {
    let code = "fn main() -> Void \n{\nprintln(\"Hello, world!\");\n}";
    let mut lexer = Lexer::new(code);
    assert!(lexer.run().is_ok());
    println!("{:?}", lexer.get_tokens());
    assert_eq!(lexer.line(), 4);
}

#[test]
fn column_counting() {
    let code = "fn main() -> Void\n{\nprintln(\"Hello, world!\");\n}";
    let mut lexer = Lexer::new(code);
    assert!(lexer.run().is_ok());
    println!("{:?}", lexer.get_tokens());
    assert_eq!(lexer.column(), 2);
}

#[test]
fn lexing_numbers() {
    let code = "fn main() -> Void \n{\nlet:i32 a = 5;\nlet:i32 b = 0;\n}";
    let ans = vec![
        Token::Statement(Statement::Function),
        Token::TypeValue(TypeValue::Identifier("main".to_string())),
        Token::Symbol(Symbol::OpenParen),
        Token::Symbol(Symbol::CloseParen),
        Token::Symbol(Symbol::Arrow),
        Token::TypeName(TypeName::Void),
        Token::Symbol(Symbol::OpenBrace),
        Token::Statement(Statement::Let),
        Token::Symbol(Symbol::Colon),
        Token::TypeName(TypeName::I32),
        Token::TypeValue(TypeValue::Identifier("a".to_string())),
        Token::Assign(Assign::Assign),
        Token::TypeValue(TypeValue::Number(5.to_string())),
        Token::Symbol(Symbol::Semicolon),
        Token::Statement(Statement::Let),
        Token::Symbol(Symbol::Colon),
        Token::TypeName(TypeName::I32),
        Token::TypeValue(TypeValue::Identifier("b".to_string())),
        Token::Assign(Assign::Assign),
        Token::TypeValue(TypeValue::Number(0.to_string())),
        Token::Symbol(Symbol::Semicolon),
        Token::Symbol(Symbol::CloseBrace),
    ];
    let mut lexer = Lexer::new(code);
    assert!(lexer.run().is_ok());
    println!("{:?}", lexer.get_tokens());
    assert_eq!(lexer.get_tokens(), ans);
}

#[test]
fn lexing_strings() {
    let code = " \"Hello, world!\" ";
    let ans = vec![Token::TypeValue(TypeValue::QuotedString("Hello, world!".to_string()))];
    let mut lexer = Lexer::new(code);
    assert!(lexer.run().is_ok());
    println!("{:?}", lexer.get_tokens());
    assert_eq!(lexer.get_tokens(), ans);
}

#[test]
fn lexing_comments() {
    let code = "public fn main() -> Void \n{\n//println(\"Hello, world!\");\nreturn;\n}";
    let ans = vec![
        Token::Statement(Statement::Public),
        Token::Statement(Statement::Function),
        Token::TypeValue(TypeValue::Identifier("main".to_string())),
        Token::Symbol(Symbol::OpenParen),
        Token::Symbol(Symbol::CloseParen),
        Token::Symbol(Symbol::Arrow),
        Token::TypeName(TypeName::Void),
        Token::Symbol(Symbol::OpenBrace),
        Token::Statement(Statement::Return),
        Token::Symbol(Symbol::Semicolon),
        Token::Symbol(Symbol::CloseBrace),
    ];
    let mut lexer = Lexer::new(code);
    assert!(lexer.run().is_ok());
    println!("{:?}", lexer.get_tokens());
    assert_eq!(lexer.get_tokens(), ans);
}

#[test]
fn lexing_string_assign() {
    let code = "let:String a = \"Hello, world!\";";
    let ans = vec![
        Token::Statement(Statement::Let),
        Token::Symbol(Symbol::Colon),
        Token::TypeName(TypeName::QuotedString),
        Token::TypeValue(TypeValue::Identifier("a".to_string())),
        Token::Assign(Assign::Assign),
        Token::TypeValue(TypeValue::QuotedString("Hello, world!".to_string())),
        Token::Symbol(Symbol::Semicolon),
    ];
    let mut lexer = Lexer::new(code);
    assert!(lexer.run().is_ok());
    println!("{:?}", lexer.get_tokens());
    assert_eq!(lexer.get_tokens(), ans);
}

#[test]
fn lexing_underbar_started_var() {
    let code = "let:i32 _a = 5;";
    let ans = vec![
        Token::Statement(Statement::Let),
        Token::Symbol(Symbol::Colon),
        Token::TypeName(TypeName::I32),
        Token::TypeValue(TypeValue::Identifier("_a".to_string())),
        Token::Assign(Assign::Assign),
        Token::TypeValue(TypeValue::Number(5.to_string())),
        Token::Symbol(Symbol::Semicolon),
    ];
    let mut lexer = Lexer::new(code);
    assert!(lexer.run().is_ok());
    println!("{:?}", lexer.get_tokens());
    assert_eq!(lexer.get_tokens(), ans);
}

#[test]
fn lexing_nested_expression() {
    let code = "let:i32 a = ((5 + a) /2)+2;";
    let ans = vec![
        Token::Statement(Statement::Let),
        Token::Symbol(Symbol::Colon),
        Token::TypeName(TypeName::I32),
        Token::TypeValue(TypeValue::Identifier("a".to_string())),
        Token::Assign(Assign::Assign),
        Token::Symbol(Symbol::OpenParen),
        Token::Symbol(Symbol::OpenParen),
        Token::TypeValue(TypeValue::Number(5.to_string())),
        Token::Operator(Operator::Add),
        Token::TypeValue(TypeValue::Identifier("a".to_string())),
        Token::Symbol(Symbol::CloseParen),
        Token::Operator(Operator::Divide),
        Token::TypeValue(TypeValue::Number(2.to_string())),
        Token::Symbol(Symbol::CloseParen),
        Token::Operator(Operator::Add),
        Token::TypeValue(TypeValue::Number(2.to_string())),
        Token::Symbol(Symbol::Semicolon),
    ];
    let mut lexer = Lexer::new(code);
    assert!(lexer.run().is_ok());
    println!("{:?}", lexer.get_tokens());
    assert_eq!(lexer.get_tokens(), ans);
}

#[test]
fn lexing_complex() {
    let code = "fn main() -> Void \n{\nlet:i32 a = 5;\nlet:i32 b = 0;\nprintln(\"Hello, world!\");\nreturn;\n}";
    let ans = vec![
        Token::Statement(Statement::Function),
        Token::TypeValue(TypeValue::Identifier("main".to_string())),
        Token::Symbol(Symbol::OpenParen),
        Token::Symbol(Symbol::CloseParen),
        Token::Symbol(Symbol::Arrow),
        Token::TypeName(TypeName::Void),
        Token::Symbol(Symbol::OpenBrace),
        Token::Statement(Statement::Let),
        Token::Symbol(Symbol::Colon),
        Token::TypeName(TypeName::I32),
        Token::TypeValue(TypeValue::Identifier("a".to_string())),
        Token::Assign(Assign::Assign),
        Token::TypeValue(TypeValue::Number(5.to_string())),
        Token::Symbol(Symbol::Semicolon),
        Token::Statement(Statement::Let),
        Token::Symbol(Symbol::Colon),
        Token::TypeName(TypeName::I32),
        Token::TypeValue(TypeValue::Identifier("b".to_string())),
        Token::Assign(Assign::Assign),
        Token::TypeValue(TypeValue::Number(0.to_string())),
        Token::Symbol(Symbol::Semicolon),
        Token::Statement(Statement::Println),
        Token::Symbol(Symbol::OpenParen),
        Token::TypeValue(TypeValue::QuotedString("Hello, world!".to_string())),
        Token::Symbol(Symbol::CloseParen),
        Token::Symbol(Symbol::Semicolon),
        Token::Statement(Statement::Return),
        Token::Symbol(Symbol::Semicolon),
        Token::Symbol(Symbol::CloseBrace),
    ];
    let mut lexer = Lexer::new(code);
    assert!(lexer.run().is_ok());
    println!("{:?}", lexer.get_tokens());
    assert_eq!(lexer.get_tokens(), ans);
}

#[test]
fn empty_source_has_no_tokens() {
    assert_eq!(lex_ok(""), vec![]);
}

#[test]
fn whitespace_only_has_no_tokens() {
    assert_eq!(lex_ok(" \t\n\r\n  \u{a0}\u{3000}\n"), vec![]);
}

#[test]
fn single_line_position() {
    let mut lexer = Lexer::new("let:i32 a = 5;");
    assert!(lexer.run().is_ok());
    assert_eq!(lexer.line(), 1);
    assert_eq!(lexer.column(), 15);
}

#[test]
fn column_counts_characters_not_bytes() {
    let mut lexer = Lexer::new("\"h\u{e9}\u{4e16}\"");
    assert!(lexer.run().is_ok());
    assert_eq!(lexer.line(), 1);
    assert_eq!(lexer.column(), 6);
    assert_eq!(lexer.get_tokens(), vec![quoted("h\u{e9}\u{4e16}")]);
}

#[test]
fn arrow_is_one_token() {
    assert_eq!(lex_ok("->"), vec![Token::Symbol(Symbol::Arrow)]);
    assert_eq!(
        lex_ok("a->b"),
        vec![ident("a"), Token::Symbol(Symbol::Arrow), ident("b")]
    );
    assert_eq!(
        lex_ok("- >"),
        vec![Token::Operator(Operator::Subtract), Token::Operator(Operator::Greater)]
    );
}

#[test]
fn double_operators() {
    assert_eq!(
        lex_ok("a == b != c <= d >= e && f || g"),
        vec![
            ident("a"),
            Token::Operator(Operator::Equal),
            ident("b"),
            Token::Operator(Operator::NotEqual),
            ident("c"),
            Token::Operator(Operator::LessEqual),
            ident("d"),
            Token::Operator(Operator::GreaterEqual),
            ident("e"),
            Token::Operator(Operator::And),
            ident("f"),
            Token::Operator(Operator::Or),
            ident("g"),
        ]
    );
}

#[test]
fn quoted_string_keeps_inner_whitespace() {
    assert_eq!(lex_ok("\"  a \t b  \""), vec![quoted("  a \t b  ")]);
    assert_eq!(lex_ok("\"\""), vec![quoted("")]);
}

#[test]
fn comment_content_yields_nothing() {
    assert_eq!(
        lex_ok("a // \"open ( 5 -> fn\nb"),
        vec![ident("a"), ident("b")]
    );
    assert_eq!(lex_ok("// only a comment"), vec![]);
}

#[test]
fn return_and_returning() {
    assert_eq!(
        lex_ok("return returning"),
        vec![Token::Statement(Statement::Return), ident("returning")]
    );
}

#[test]
fn keyword_type_name_and_identifier() {
    assert_eq!(
        lex_ok("while bool i64 Strings"),
        vec![
            Token::Statement(Statement::While),
            Token::TypeName(TypeName::Bool),
            Token::TypeName(TypeName::I64),
            ident("Strings"),
        ]
    );
}

#[test]
fn number_then_word() {
    assert_eq!(lex_ok("123abc"), vec![number("123"), ident("abc")]);
    assert_eq!(lex_ok("x1 42"), vec![ident("x1"), number("42")]);
}

#[test]
fn minus_is_an_operator() {
    assert_eq!(
        lex_ok("-5"),
        vec![Token::Operator(Operator::Subtract), number("5")]
    );
}

#[test]
fn all_single_symbols_and_operators() {
    assert_eq!(
        lex_ok("( ) { } [ ] : ; , . + - * / % < > ! ="),
        vec![
            Token::Symbol(Symbol::OpenParen),
            Token::Symbol(Symbol::CloseParen),
            Token::Symbol(Symbol::OpenBrace),
            Token::Symbol(Symbol::CloseBrace),
            Token::Symbol(Symbol::OpenBracket),
            Token::Symbol(Symbol::CloseBracket),
            Token::Symbol(Symbol::Colon),
            Token::Symbol(Symbol::Semicolon),
            Token::Symbol(Symbol::Comma),
            Token::Symbol(Symbol::Dot),
            Token::Operator(Operator::Add),
            Token::Operator(Operator::Subtract),
            Token::Operator(Operator::Multiply),
            Token::Operator(Operator::Divide),
            Token::Operator(Operator::Modulo),
            Token::Operator(Operator::Less),
            Token::Operator(Operator::Greater),
            Token::Operator(Operator::Not),
            Token::Assign(Assign::Assign),
        ]
    );
}

#[test]
fn unterminated_string_is_an_error() {
    let mut lexer = Lexer::new("let:String a = \"unterminated");
    let err = lexer.run().unwrap_err();
    assert_eq!(err.message, LexError::ExpectedQuote);
    assert_eq!(err.line, 1);
    assert_eq!(err.column, 29);
    assert_eq!(err.start, 15);
    assert_eq!(err.end, 28);
}

#[test]
fn scenario_comment_suppression_tail() {
    let tokens = lex_ok("public fn main() -> Void \n{\n//println(\"x\");\nreturn;\n}");
    let n = tokens.len();
    assert_eq!(
        tokens[n - 3..].to_vec(),
        vec![
            Token::Statement(Statement::Return),
            Token::Symbol(Symbol::Semicolon),
            Token::Symbol(Symbol::CloseBrace),
        ]
    );
    assert!(!tokens.iter().any(|t| *t == Token::Statement(Statement::Println)));
}

#[test]
fn new_starts_at_line_one_column_one() {
    let lexer = Lexer::new("fn main");
    assert_eq!(lexer.line(), 1);
    assert_eq!(lexer.column(), 1);
    assert_eq!(lexer.get_tokens(), vec![]);
    assert_eq!(lexer.source_len(), 7);
}

fn error_at(start: usize, end: usize, column: usize, message: LexError) -> LexicalError {
    LexicalError { line: 1, column, start, end, message }
}

#[test]
fn context_span_clamps_at_both_ends() {
    assert_eq!(context_span(100, &error_at(30, 40, 31, LexError::ExpectedQuote)), (20, 50));
    assert_eq!(context_span(45, &error_at(3, 40, 4, LexError::ExpectedQuote)), (0, 45));
}

#[test]
fn error_context_of_unterminated_string() {
    let code = "let:String a = \"unterminated";
    let mut lexer = Lexer::new(code);
    let err = lexer.run().unwrap_err();
    assert_eq!(lexer.error_context(&err), "tring a = \"unterminated");
}

#[test]
fn caret_under_column() {
    assert_eq!(caret_line(29, 5), format!("{}^", " ".repeat(23)));
    assert_eq!(caret_line(1, 5), "^");
}

#[test]
fn messages_and_suggestions() {
    assert_eq!(message_text(&LexError::ExpectedQuote), "Expected closing quote");
    assert_eq!(suggestion(&LexError::ExpectedQuote), "Suggestion: Expected quote.");
    assert_eq!(
        message_text(&LexError::InvalidNumber("1x".to_string())),
        "Invalid number '1x'"
    );
    assert_eq!(
        suggestion(&LexError::InvalidCharacter('@')),
        "Suggestion: Unexpected character '@'. Try removing or replacing it."
    );
    assert_eq!(
        suggestion(&LexError::InvalidDoubleSymbol("=>".to_string())),
        "Suggestion: Invalid double symbol '=>'."
    );
}
