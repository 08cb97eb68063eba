use vstd::prelude::*;
use crate::tokens::{BlockKind, CssToken};
use cssparser::Token;
use cssparser::ToCss;

verus! {

#[verifier::external_type_specification]
#[verifier::external_body]
pub struct ExParser<'i>(cssparser::Parser<'i>);

#[verifier::external_type_specification]
#[verifier::external_body]
pub struct ExToken<'i>(cssparser::Token<'i>);

/// What a block-opening token opens: a bare block or a function's argument list.
pub enum Opener {
    Bare(BlockKind),
    Func(String),
}

/// The token sequence that the tokenizer produces for a stylesheet's text.
pub uninterp spec fn tokens_of(css: Seq<char>) -> Seq<CssToken>;

/// Relies on cssparser's Parser::next_including_whitespace_and_comments: hands
/// back the next token together with its raw source slice, or None at the end
/// of the current input or nested block.
#[verifier::external_body]
fn next_raw<'i>(p: &mut cssparser::Parser<'i>) -> (r: Option<(Token<'i>, String)>) {
    let pos = p.position();
    match p.next_including_whitespace_and_comments() {
        Ok(t) => {
            let t = t.clone();
            Some((t, p.slice_from(pos).to_string()))
        },
        Err(_) => None,
    }
}

/// Relies on cssparser's Token: the tokens that the rewriter copies as written
/// are handed over as their raw source slice.
#[verifier::external_body]
fn conv_verbatim(t: &Token<'_>, slice: &str) -> (r: Option<CssToken>) {
    match t {
        Token::Comment(_) | Token::WhiteSpace(_) | Token::Delim(_) | Token::Colon
        | Token::Semicolon | Token::Comma | Token::IncludeMatch | Token::DashMatch
        | Token::PrefixMatch | Token::SuffixMatch | Token::SubstringMatch | Token::CDO
        | Token::CDC | Token::CloseParenthesis | Token::CloseSquareBracket
        | Token::CloseCurlyBracket => Some(CssToken::Verbatim(slice.to_string())),
        _ => None,
    }
}

/// Relies on cssparser's Token: text-carrying tokens hand over their text, one
/// variant each; malformed string and URL tokens become Bad.
#[verifier::external_body]
fn conv_text(t: &Token<'_>) -> (r: Option<CssToken>) {
    match t {
        Token::Ident(v) => Some(CssToken::Ident(v.to_string())),
        Token::AtKeyword(v) => Some(CssToken::AtKeyword(v.to_string())),
        Token::Hash(v) => Some(CssToken::Hash(v.to_string())),
        Token::IDHash(v) => Some(CssToken::IdHash(v.to_string())),
        Token::QuotedString(v) => Some(CssToken::QuotedString(v.to_string())),
        Token::UnquotedUrl(v) => Some(CssToken::UnquotedUrl(v.to_string())),
        Token::BadUrl(_) | Token::BadString(_) => Some(CssToken::Bad),
        _ => None,
    }
}

/// Relies on cssparser's Token and its ToCss serializer: numeric tokens hand
/// over the sign flag, the sign of the value, the serialized value
/// (percentages already scaled to percent by cssparser's own serializer, which
/// also appends the `%`), and the unit for dimensions.
#[verifier::external_body]
fn conv_num(t: &Token<'_>) -> (r: Option<CssToken>) {
    match t {
        Token::Number { has_sign, value, .. } => Some(CssToken::Num {
            has_sign: *has_sign, non_negative: !value.is_sign_negative(),
            text: value.to_string(), suffix: String::new() }),
        Token::Percentage { has_sign, unit_value, int_value } => Some(CssToken::Num {
            has_sign: *has_sign, non_negative: !unit_value.is_sign_negative(),
            text: Token::Percentage { has_sign: false, unit_value: *unit_value, int_value: *int_value }.to_css_string(),
            suffix: String::new() }),
        Token::Dimension { has_sign, value, unit, .. } => Some(CssToken::Num {
            has_sign: *has_sign, non_negative: !value.is_sign_negative(),
            text: value.to_string(), suffix: unit.to_string() }),
        _ => None,
    }
}

/// Relies on cssparser's Token: block-opening and function tokens, by kind.
#[verifier::external_body]
fn conv_open(t: &Token<'_>) -> (r: Option<Opener>) {
    match t {
        Token::ParenthesisBlock => Some(Opener::Bare(BlockKind::Paren)),
        Token::SquareBracketBlock => Some(Opener::Bare(BlockKind::Bracket)),
        Token::CurlyBracketBlock => Some(Opener::Bare(BlockKind::Brace)),
        Token::Function(name) => Some(Opener::Func(name.to_string())),
        _ => None,
    }
}

/// Relies on cssparser's Parser::parse_nested_block: enters the interior of
/// the block that was just returned, collects its tokens through the token
/// tree builder, and consumes the matching closer on return.
#[verifier::external_body]
fn descend<'i>(p: &mut cssparser::Parser<'i>, fuel: usize) -> (r: Vec<CssToken>) {
    p.parse_nested_block(|p2| -> Result<Vec<CssToken>, cssparser::ParseError<()>> {
        Ok(build_tokens(p2, fuel))
    }).unwrap_or(Vec::new())
}

/// Walks the current input or nested block and builds the token tree for it.
/// The fuel starts as the byte length of the input, which no token count can
/// reach, since every token spans at least one byte.
pub fn build_tokens<'i>(p: &mut cssparser::Parser<'i>, fuel: usize) -> Vec<CssToken> {
    let mut out: Vec<CssToken> = Vec::new();
    let mut n: usize = fuel;
    loop
        decreases n,
    {
        if n == 0 {
            break;
        }
        n = n - 1;
        let nxt = next_raw(p);
        match nxt {
            None => {
                break;
            },
            Some((tok, slice)) => {
                if let Some(ct) = conv_verbatim(&tok, slice.as_str()) {
                    out.push(ct);
                } else if let Some(ct) = conv_text(&tok) {
                    out.push(ct);
                } else if let Some(ct) = conv_num(&tok) {
                    out.push(ct);
                } else if let Some(op) = conv_open(&tok) {
                    let inner = descend(p, n);
                    match op {
                        Opener::Bare(kind) => {
                            out.push(CssToken::Block(kind, inner));
                        },
                        Opener::Func(name) => {
                            out.push(CssToken::Function(name, inner));
                        },
                    }
                }
            },
        }
    }
    out
}

/// Relies on cssparser's Parser and parse_entirely: tokenizing a
/// stylesheet is a function of the source text alone.
#[verifier::external_body]
pub fn tokenize(css: &str) -> (r: Vec<CssToken>)
    ensures
        r@ == tokens_of(css@),
{
    let n = css.len().saturating_add(1);
    let mut parser = cssparser::Parser::new(css);
    parser.parse_entirely(|p| -> Result<Vec<CssToken>, cssparser::ParseError<()>> {
        Ok(build_tokens(p, n))
    }).unwrap_or(Vec::new())
}

} // verus!
