use vstd::prelude::*;

use crate::lexer::{
    column_at, lemma_scan_inv, lex, line_at, scan_prefix, spec_is_whitespace, spec_is_word_char,
    spec_is_word_start, ScanModel, ScanState,
};
use crate::token::{spec_classify_word, Statement, Symbol, TokenModel, ValueModel};

verus! {

proof fn lemma_whitespace_prefix(src: Seq<char>, n: nat)
    requires
        n <= src.len(),
        forall|i: int| 0 <= i < src.len() ==> spec_is_whitespace(#[trigger] src[i]),
    ensures
        scan_prefix(src, n) == (ScanModel {
            state: ScanState::Empty,
            start: n as int,
            tokens: Seq::empty(),
        }),
    decreases n,
{
    if n > 0 {
        lemma_whitespace_prefix(src, (n - 1) as nat);
        assert(spec_is_whitespace(src[n - 1]));
    }
}

/// Source text made only of whitespace lexes to no tokens at all.
pub proof fn lemma_whitespace_only_lexes_to_nothing(src: Seq<char>)
    requires
        forall|i: int| 0 <= i < src.len() ==> spec_is_whitespace(#[trigger] src[i]),
    ensures
        lex(src) == Some(Seq::<TokenModel>::empty()),
{
    lemma_whitespace_prefix(src, src.len());
}

proof fn lemma_single_line_prefix(src: Seq<char>, n: nat)
    requires
        n <= src.len(),
        forall|i: int| 0 <= i < src.len() ==> #[trigger] src[i] != '\n',
    ensures
        line_at(src, n) == 1,
        column_at(src, n) == n + 1,
    decreases n,
{
    if n > 0 {
        lemma_single_line_prefix(src, (n - 1) as nat);
        assert(src[n - 1] != '\n');
    }
}

/// On text without a newline the scanner ends on line 1, at the column one
/// past the number of characters read.
pub proof fn lemma_single_line_position(src: Seq<char>)
    requires
        forall|i: int| 0 <= i < src.len() ==> #[trigger] src[i] != '\n',
    ensures
        line_at(src, src.len()) == 1,
        column_at(src, src.len()) == src.len() + 1,
{
    lemma_single_line_prefix(src, src.len());
}

/// An arrow `->` met at a token boundary becomes the one token `Arrow`; the
/// `-` and the `>` are never emitted on their own, and the scanner is back at
/// a boundary after the `>`.
pub proof fn lemma_arrow_is_one_token(src: Seq<char>, i: int)
    requires
        0 <= i,
        i + 1 < src.len(),
        src[i] == '-',
        src[i + 1] == '>',
        scan_prefix(src, i as nat).state == ScanState::Empty,
    ensures
        scan_prefix(src, (i + 2) as nat) == (ScanModel {
            state: ScanState::Empty,
            start: i + 2,
            tokens: scan_prefix(src, i as nat).tokens.push(TokenModel::Symbol(Symbol::Arrow)),
        }),
{
    lemma_scan_inv(src, i as nat);
    assert(scan_prefix(src, (i + 1) as nat).state == ScanState::PostDoubleSymbol);
}

proof fn lemma_comment_body(src: Seq<char>, i: int, k: int)
    requires
        0 <= i,
        i + 2 <= k <= src.len(),
        src[i] == '/',
        src[i + 1] == '/',
        scan_prefix(src, i as nat).state == ScanState::Empty,
        forall|j: int| i + 2 <= j < k ==> #[trigger] src[j] != '\n',
    ensures
        scan_prefix(src, k as nat).state == ScanState::Comment,
        scan_prefix(src, k as nat).tokens == scan_prefix(src, i as nat).tokens,
    decreases k,
{
    lemma_scan_inv(src, i as nat);
    if k == i + 2 {
        assert(scan_prefix(src, (i + 1) as nat).state == ScanState::Comment);
    } else {
        lemma_comment_body(src, i, k - 1);
        assert(src[k - 1] != '\n');
    }
}

/// A comment, from `//` at a token boundary to the end of its line, adds no
/// token whatever it holds: while it lasts the tokens stay as they were, and
/// its newline brings the scanner back to a boundary with those same tokens.
pub proof fn lemma_comment_adds_no_tokens(src: Seq<char>, i: int, k: int)
    requires
        0 <= i,
        i + 2 <= k <= src.len(),
        src[i] == '/',
        src[i + 1] == '/',
        scan_prefix(src, i as nat).state == ScanState::Empty,
        forall|j: int| i + 2 <= j < k ==> #[trigger] src[j] != '\n',
    ensures
        scan_prefix(src, k as nat).tokens == scan_prefix(src, i as nat).tokens,
        k < src.len() && src[k] == '\n' ==> scan_prefix(src, (k + 1) as nat) == (ScanModel {
            state: ScanState::Empty,
            start: k + 1,
            tokens: scan_prefix(src, i as nat).tokens,
        }),
{
    lemma_comment_body(src, i, k);
}

/// A word is the `return` statement exactly when it is `return` itself; a
/// longer word that begins with `return`, such as `returning`, is an
/// identifier.
pub proof fn lemma_return_classification(w: Seq<char>)
    ensures
        (spec_classify_word(w) == TokenModel::Statement(Statement::Return)) <==> w == "return"@,
        w.len() > 6 && w.subrange(0, 6) == "return"@ ==> spec_classify_word(w)
            == TokenModel::TypeValue(ValueModel::Identifier(w)),
{
    reveal_strlit("return");
    reveal_strlit("fn");
    reveal_strlit("let");
    reveal_strlit("println");
    reveal_strlit("public");
    reveal_strlit("if");
    reveal_strlit("else");
    reveal_strlit("while");
    reveal_strlit("i32");
    reveal_strlit("i64");
    reveal_strlit("bool");
    reveal_strlit("String");
    reveal_strlit("Void");
    if w.len() > 6 && w.subrange(0, 6) == "return"@ {
        assert(w[0] == w.subrange(0, 6)[0]);
        assert(w != "println"@);
    }
}

/// `p` stands verbatim in `src` between two quote characters and holds no
/// quote itself.
pub open spec fn quoted_in_source(src: Seq<char>, p: Seq<char>) -> bool {
    &&& forall|k: int| 0 <= k < p.len() ==> #[trigger] p[k] != '"'
    &&& exists|a: int|
        1 <= a && a + p.len() < src.len() && src[a - 1] == '"' && src[a + p.len()] == '"'
            && #[trigger] src.subrange(a, a + p.len()) == p
}

/// A quoted-string token whose payload is as `quoted_in_source` says, or any
/// other token.
pub open spec fn quote_ok(src: Seq<char>, t: TokenModel) -> bool {
    match t {
        TokenModel::TypeValue(ValueModel::QuotedString(p)) => quoted_in_source(src, p),
        _ => true,
    }
}

/// Every quoted-string token that the scanner emits holds the characters
/// between its two quotes exactly as they stand in the source, whitespace
/// included, and never a quote character.
pub proof fn lemma_quoted_payloads(src: Seq<char>, n: nat)
    requires
        n <= src.len(),
    ensures
        forall|j: int|
            0 <= j < scan_prefix(src, n).tokens.len() ==> quote_ok(
                src,
                #[trigger] scan_prefix(src, n).tokens[j],
            ),
    decreases n,
{
    if n > 0 {
        let i = n - 1;
        let m = scan_prefix(src, i as nat);
        lemma_quoted_payloads(src, i as nat);
        lemma_scan_inv(src, i as nat);
        let m2 = scan_prefix(src, n);
        if m.state == ScanState::QuotedString && src[i] == '"' {
            let p = src.subrange(m.start + 1, i);
            assert(m2.tokens == m.tokens.push(
                TokenModel::TypeValue(ValueModel::QuotedString(p)),
            ));
            assert(src.subrange(m.start + 1, m.start + 1 + p.len()) == p);
            assert forall|k: int| 0 <= k < p.len() implies #[trigger] p[k] != '"' by {
                assert(p[k] == src[m.start + 1 + k]);
            }
            assert(quoted_in_source(src, p));
        }
        assert forall|j: int| 0 <= j < m2.tokens.len() implies quote_ok(
            src,
            #[trigger] m2.tokens[j],
        ) by {
            if j < m.tokens.len() {
                assert(m2.tokens[j] == m.tokens[j]);
            }
        }
    }
}

proof fn lemma_word_prefix(w: Seq<char>, n: nat)
    requires
        1 <= n < w.len(),
        spec_is_word_start(w[0]),
        forall|i: int| 0 <= i < w.len() ==> spec_is_word_char(#[trigger] w[i]),
    ensures
        scan_prefix(w, n) == (ScanModel {
            state: ScanState::Identifier,
            start: 0,
            tokens: Seq::empty(),
        }),
    decreases n,
{
    if n == 1 {
        assert(spec_is_word_char(w[1]));
    } else {
        lemma_word_prefix(w, (n - 1) as nat);
        assert(spec_is_word_char(w[n - 1]));
        assert(spec_is_word_char(w[n as int]));
    }
}

/// A source that is one word (a letter or `_`, then letters, digits and `_`)
/// lexes to the single token that its whole text classifies as: a keyword only
/// where the whole word is one, never by a prefix.
pub proof fn lemma_single_word_source(w: Seq<char>)
    requires
        w.len() > 0,
        spec_is_word_start(w[0]),
        forall|i: int| 0 <= i < w.len() ==> spec_is_word_char(#[trigger] w[i]),
    ensures
        lex(w) == Some(seq![spec_classify_word(w)]),
{
    assert(spec_is_word_char(w[w.len() - 1]));
    if w.len() > 1 {
        lemma_word_prefix(w, (w.len() - 1) as nat);
    }
    assert(w.subrange(0, w.len() as int) =~= w);
    assert(seq![spec_classify_word(w)] =~= Seq::<TokenModel>::empty().push(spec_classify_word(w)));
}

} // verus!
