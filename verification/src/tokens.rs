use vstd::prelude::*;

verus! {

/// The three bracket shapes that open a nested block.
#[derive(Clone, Copy, PartialEq, Eq, Structural)]
pub enum BlockKind {
    Paren,
    Bracket,
    Brace,
}

/// One lexical CSS token. Nested block and function contents are held as
/// bounded sub-sequences of tokens, so the stream's nesting is explicit.
pub enum CssToken {
    /// Whitespace, comments, punctuation and match operators, carrying their
    /// raw source text: the rewriter copies them as written.
    Verbatim(String),
    /// An identifier; sets the current property name.
    Ident(String),
    /// An at-keyword, without the `@` marker; sets the current rule name.
    AtKeyword(String),
    /// An unrestricted hash token, without the `#` marker.
    Hash(String),
    /// A hash token that is a valid ID selector, without the `#` marker.
    IdHash(String),
    /// A quoted string, without the quotes.
    QuotedString(String),
    /// An unquoted `url(...)` literal, without the markers.
    UnquotedUrl(String),
    /// A number, percentage or dimension: whether the source carried an
    /// explicit sign, whether the value is non-negative, the serialized
    /// numeric value, and the unit suffix (empty for plain numbers).
    Num { has_sign: bool, non_negative: bool, text: String, suffix: String },
    /// A parenthesis, bracket or brace block with its interior tokens.
    Block(BlockKind, Vec<CssToken>),
    /// A function token with its name and argument tokens.
    Function(String, Vec<CssToken>),
    /// A malformed string or URL token: dropped from the output.
    Bad,
}

/// Structural size of one token, counting nested contents.
pub open spec fn tok_size(t: CssToken) -> nat
    decreases t,
{
    match t {
        CssToken::Block(_, inner) => 1 + toks_size(inner@),
        CssToken::Function(_, inner) => 1 + toks_size(inner@),
        _ => 1,
    }
}

/// Structural size of a token sequence: the termination measure for the
/// rewriter's descent into nested blocks.
pub open spec fn toks_size(s: Seq<CssToken>) -> nat
    decreases s,
{
    if s.len() == 0 {
        0
    } else {
        tok_size(s[0]) + toks_size(s.drop_first())
    }
}

pub proof fn lemma_tok_size_pos(t: CssToken)
    ensures
        tok_size(t) >= 1,
{
}

pub proof fn lemma_toks_size_skip(s: Seq<CssToken>, i: int)
    requires
        0 <= i < s.len(),
    ensures
        toks_size(s.skip(i)) == tok_size(s[i]) + toks_size(s.skip(i + 1)),
{
    assert(s.skip(i).len() > 0);
    assert(s.skip(i)[0] == s[i]);
    assert(s.skip(i).drop_first() =~= s.skip(i + 1));
}

pub proof fn lemma_toks_size_all(s: Seq<CssToken>)
    ensures
        toks_size(s.skip(0)) == toks_size(s),
{
    assert(s.skip(0) =~= s);
}

} // verus!
