use vstd::prelude::*;

use crate::lexer::{LexError, LexicalError};
use crate::token::push_char;

verus! {

/// Characters of source shown on each side of the failing lexeme.
pub const CONTEXT_WINDOW: usize = 10;

/// The span of source shown around the lexeme `start..end` in a source of
/// `len` characters: `CONTEXT_WINDOW` characters on each side, fewer where
/// the source begins or ends.
pub open spec fn spec_context_span(len: int, start: int, end: int) -> (int, int) {
    (
        if start >= CONTEXT_WINDOW {
            start - CONTEXT_WINDOW
        } else {
            0
        },
        if end + CONTEXT_WINDOW <= len {
            end + CONTEXT_WINDOW
        } else {
            len
        },
    )
}

/// The span of source shown around `e`, in a source of `len` characters.
pub fn context_span(len: usize, e: &LexicalError) -> (r: (usize, usize))
    ensures
        (r.0 as int, r.1 as int) == spec_context_span(len as int, e.start as int, e.end as int),
{
    let from = if e.start >= CONTEXT_WINDOW {
        e.start - CONTEXT_WINDOW
    } else {
        0
    };
    let to = if e.end <= len && len - e.end >= CONTEXT_WINDOW {
        e.end + CONTEXT_WINDOW
    } else {
        len
    };
    (from, to)
}

/// `n` spaces.
pub open spec fn spaces(n: nat) -> Seq<char>
    decreases n,
{
    if n == 0 {
        Seq::empty()
    } else {
        spaces((n - 1) as nat).push(' ')
    }
}

/// The marker line under a snippet that starts at character `from`: a caret
/// below `column`, or at the line's start where the column lies before it.
pub fn caret_line(column: usize, from: usize) -> (r: String)
    ensures
        r@ == spaces(
            if column > from + 1 {
                (column - from - 1) as nat
            } else {
                0
            },
        ).push('^'),
{
    let n: usize = if column > from && column - from > 1 {
        column - from - 1
    } else {
        0
    };
    let mut s = String::new();
    let mut k: usize = 0;
    while k < n
        invariant
            k <= n,
            s@ == spaces(k as nat),
        decreases n - k,
    {
        push_char(&mut s, ' ');
        k += 1;
    }
    push_char(&mut s, '^');
    s
}

/// `prefix`, then `body`, then `suffix`.
fn framed(prefix: &str, body: &str, suffix: &str) -> (r: String)
    ensures
        r@ == prefix@ + body@ + suffix@,
{
    let mut s = String::from_str(prefix);
    s.append(body);
    s.append(suffix);
    s
}

/// What the error says.
pub open spec fn spec_message(m: LexError) -> Seq<char> {
    match m {
        LexError::InvalidCharacter(c) => "Invalid character '"@ + seq![c] + "'"@,
        LexError::InvalidTypeName(s) => "Invalid type name '"@ + s@ + "'"@,
        LexError::InvalidNumber(s) => "Invalid number '"@ + s@ + "'"@,
        LexError::InvalidIdentifier(s) => "Invalid identifier '"@ + s@ + "'"@,
        LexError::InvalidOperator(s) => "Invalid operator '"@ + s@ + "'"@,
        LexError::InvalidSymbol(s) => "Invalid symbol '"@ + s@ + "'"@,
        LexError::InvalidStatement(s) => "Invalid statement '"@ + s@ + "'"@,
        LexError::InvalidDoubleSymbol(s) => "Invalid double symbol '"@ + s@ + "'"@,
        LexError::ExpectedQuote => "Expected closing quote"@,
    }
}

/// The one-line remedy offered for the error.
pub open spec fn spec_suggestion(m: LexError) -> Seq<char> {
    match m {
        LexError::InvalidCharacter(c) => "Suggestion: Unexpected character '"@ + seq![c]
            + "'. Try removing or replacing it."@,
        LexError::InvalidTypeName(s) => "Suggestion: Unexpected type'"@ + s@ + "'."@,
        LexError::InvalidNumber(s) => "Suggestion: Invalid number '"@ + s@ + "'."@,
        LexError::InvalidIdentifier(s) => "Suggestion: Invalid identifier '"@ + s@ + "'."@,
        LexError::InvalidOperator(s) => "Suggestion: Invalid operator '"@ + s@ + "'."@,
        LexError::InvalidSymbol(s) => "Suggestion: Invalid symbol '"@ + s@ + "'."@,
        LexError::InvalidStatement(s) => "Suggestion: Invalid statement '"@ + s@ + "'."@,
        LexError::InvalidDoubleSymbol(s) => "Suggestion: Invalid double symbol '"@ + s@ + "'."@,
        LexError::ExpectedQuote => "Suggestion: Expected quote."@,
    }
}

/// The text of a single character.
fn char_text(c: char) -> (r: String)
    ensures
        r@ == seq![c],
{
    let mut s = String::new();
    push_char(&mut s, c);
    s
}

/// What the error says, as `spec_message` gives it.
pub fn message_text(m: &LexError) -> (r: String)
    ensures
        r@ == spec_message(*m),
{
    match m {
        LexError::InvalidCharacter(c) => framed("Invalid character '", char_text(*c).as_str(), "'"),
        LexError::InvalidTypeName(s) => framed("Invalid type name '", s.as_str(), "'"),
        LexError::InvalidNumber(s) => framed("Invalid number '", s.as_str(), "'"),
        LexError::InvalidIdentifier(s) => framed("Invalid identifier '", s.as_str(), "'"),
        LexError::InvalidOperator(s) => framed("Invalid operator '", s.as_str(), "'"),
        LexError::InvalidSymbol(s) => framed("Invalid symbol '", s.as_str(), "'"),
        LexError::InvalidStatement(s) => framed("Invalid statement '", s.as_str(), "'"),
        LexError::InvalidDoubleSymbol(s) => framed("Invalid double symbol '", s.as_str(), "'"),
        LexError::ExpectedQuote => String::from_str("Expected closing quote"),
    }
}

/// The remedy for the error, as `spec_suggestion` gives it.
pub fn suggestion(m: &LexError) -> (r: String)
    ensures
        r@ == spec_suggestion(*m),
{
    match m {
        LexError::InvalidCharacter(c) => framed(
            "Suggestion: Unexpected character '",
            char_text(*c).as_str(),
            "'. Try removing or replacing it.",
        ),
        LexError::InvalidTypeName(s) => framed("Suggestion: Unexpected type'", s.as_str(), "'."),
        LexError::InvalidNumber(s) => framed("Suggestion: Invalid number '", s.as_str(), "'."),
        LexError::InvalidIdentifier(s) => framed(
            "Suggestion: Invalid identifier '",
            s.as_str(),
            "'.",
        ),
        LexError::InvalidOperator(s) => framed("Suggestion: Invalid operator '", s.as_str(), "'."),
        LexError::InvalidSymbol(s) => framed("Suggestion: Invalid symbol '", s.as_str(), "'."),
        LexError::InvalidStatement(s) => framed(
            "Suggestion: Invalid statement '",
            s.as_str(),
            "'.",
        ),
        LexError::InvalidDoubleSymbol(s) => framed(
            "Suggestion: Invalid double symbol '",
            s.as_str(),
            "'.",
        ),
        LexError::ExpectedQuote => String::from_str("Suggestion: Expected quote."),
    }
}

} // verus!
