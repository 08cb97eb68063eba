use vstd::prelude::*;
use vstd::string::StrSliceExecFns;
use crate::text::{last_nonspace, lemma_trim_end_take, trim_end_sp};

verus! {

/// The text that cssparser's identifier serializer writes for an identifier.
pub uninterp spec fn css_ident_of(s: Seq<char>) -> Seq<char>;

/// The escaped content that cssparser's string serializer writes between the
/// two quotes.
pub uninterp spec fn css_escaped_body(s: Seq<char>) -> Seq<char>;

/// The text that cssparser's string serializer writes: the escaped content
/// with a double quote on either side.
pub open spec fn css_string_of(s: Seq<char>) -> Seq<char> {
    seq!['"'] + css_escaped_body(s) + seq!['"']
}

/// Relies on cssparser's serialize_identifier: writes the identifier with CSS
/// escaping; the result is a function of the input text alone.
#[verifier::external_body]
fn serialize_ident_raw(s: &str) -> (r: String)
    ensures
        r@ == css_ident_of(s@),
{
    let mut out = String::new();
    let _ = cssparser::serialize_identifier(s, &mut out);
    out
}

/// Relies on cssparser's serialize_string: writes the text as a quoted CSS
/// string, a double quote on either side of the escaped content; the result
/// is a function of the input text alone.
#[verifier::external_body]
fn serialize_string_raw(s: &str) -> (r: String)
    ensures
        r@ == css_string_of(s@),
        r@ == seq!['"'] + css_escaped_body(s@) + seq!['"'],
{
    let mut out = String::new();
    let _ = cssparser::serialize_string(s, &mut out);
    out
}

/// The serialized form of an identifier as the rewriter emits it: escaped,
/// with trailing whitespace removed.
pub open spec fn fmt_ident_of(s: Seq<char>) -> Seq<char> {
    trim_end_sp(css_ident_of(s))
}

/// Serializes an identifier with CSS escaping and trims trailing whitespace.
pub fn format_ident(ident: &str) -> (r: String)
    ensures
        r@ == fmt_ident_of(ident@),
{
    let raw = serialize_ident_raw(ident);
    let k = last_nonspace(raw.as_str());
    proof {
        lemma_trim_end_take(raw@, k as int);
    }
    let r = raw.as_str().substring_char(0, k).to_owned();
    proof {
        assert(raw@.subrange(0, k as int) =~= raw@.take(k as int));
    }
    r
}

/// Serializes a text as a quoted CSS string.
pub fn format_quoted_string(string: &str) -> (r: String)
    ensures
        r@ == css_string_of(string@),
{
    serialize_string_raw(string)
}

} // verus!
