use vstd::prelude::*;
use vstd::string::{StrSliceExecFns, StringExecFns};
use vstd::utf8::encode_utf8;
use crate::classify::{is_image_prop_sp, is_image_url_prop, ieq};
use crate::digest::{hash_url, sha256_hex_of};
use crate::encode::{base64_of, data_url_of, encode_data_url};
use crate::fetch::{AssetV, Env, EnvV, fetch_find, fetch_lookup, web_scheme};
use crate::registry::{
    CssPropAsset, EntryV, RegEntry, emit_trailer, reg_find, reg_lookup, reg_v, trailer_of,
};
use crate::serialize::{css_string_of, fmt_ident_of, format_ident, format_quoted_string};
use crate::text::{
    first_nonspace, is_space_c, lemma_trim_start_skip, spec_all_space,
    spec_starts_with, starts_with_at, str_eq, trim_start_sp,
};
use crate::tokenize::{tokenize, tokens_of};
use crate::tokens::{
    BlockKind, CssToken, lemma_tok_size_pos, lemma_toks_size_all, lemma_toks_size_skip,
    tok_size, toks_size,
};
use crate::text::eq_ignore_case;

verus! {

/// The rewriter's context: the at-rule, property and function the walk is
/// currently inside of, each empty when there is none.
pub struct Ctx {
    pub rule: String,
    pub prop: String,
    pub func: String,
}

pub struct CtxV {
    pub rule: Seq<char>,
    pub prop: Seq<char>,
    pub func: Seq<char>,
}

impl View for Ctx {
    type V = CtxV;

    open spec fn view(&self) -> CtxV {
        CtxV { rule: self.rule@, prop: self.prop@, func: self.func@ }
    }
}

pub open spec fn open_of(k: BlockKind) -> Seq<char> {
    match k {
        BlockKind::Paren => "("@,
        BlockKind::Bracket => "["@,
        BlockKind::Brace => "{"@,
    }
}

pub open spec fn close_of(k: BlockKind) -> Seq<char> {
    match k {
        BlockKind::Paren => ")"@,
        BlockKind::Bracket => "]"@,
        BlockKind::Brace => "}"@,
    }
}

/// A nonempty all-whitespace fragment collapses to nothing; anything else is
/// kept as it is.
pub open spec fn norm_sp(s: Seq<char>) -> Seq<char> {
    if s.len() > 0 && spec_all_space(s) {
        Seq::empty()
    } else {
        s
    }
}

pub open spec fn empty_image_sp() -> Seq<char> {
    "data:image/png;base64,iVBORw0KGgoAAAANSUhEUgAAAAEAAAABCAQAAAC1HAwCAAAAC0lEQVR42mNkYAAAAAYAAjCB0C8AAAAASUVORK5CYII="@
}

/// The fixed placeholder written for image references when images are kept out.
pub fn empty_image_data_url() -> (r: &'static str)
    ensures
        r@ == empty_image_sp(),
{
    "data:image/png;base64,iVBORw0KGgoAAAANSUhEUgAAAAEAAAABCAQAAAC1HAwCAAAAC0lEQVR42mNkYAAAAAYAAjCB0C8AAAAASUVORK5CYII="
}

/// The text that decoding a fetched resource's bytes as UTF-8, with
/// replacement of invalid sequences, hands back.
pub uninterp spec fn utf8_lossy_of(bytes: Seq<u8>) -> Seq<char>;

/// Relies on String::from_utf8_lossy: the decoded text is a function of the
/// bytes alone.
#[verifier::external_body]
fn from_utf8_lossy(bytes: &Vec<u8>) -> (r: String)
    ensures
        r@ == utf8_lossy_of(bytes@),
{
    String::from_utf8_lossy(bytes.as_slice()).into_owned()
}

/// The quoted inline data URL for a fetched asset's own bytes.
pub open spec fn asset_data_url(a: AssetV, frag: Option<Seq<char>>) -> Seq<char> {
    css_string_of(data_url_of(a.media_type, a.charset, base64_of(a.bytes), frag))
}

/// What an unretrievable reference leaves behind in string position: the
/// absolute URL, quoted, for web schemes; nothing otherwise.
pub open spec fn preserve_quoted_sp(res: crate::fetch::ResolutionV) -> Seq<char> {
    if web_scheme(res.scheme) {
        css_string_of(res.abs_url)
    } else {
        Seq::empty()
    }
}

/// What an unretrievable reference leaves behind in `url(...)` position.
pub open spec fn preserve_url_sp(res: crate::fetch::ResolutionV) -> Seq<char> {
    if web_scheme(res.scheme) {
        "url("@ + css_string_of(res.abs_url) + ")"@
    } else {
        "url()"@
    }
}

/// The quoted inline data URL that replaces a fetched `@import` target: the
/// imported stylesheet is itself embedded, against its final URL and with a
/// registry of its own, and the result's bytes are inlined.
pub open spec fn import_replacement(
    env: EnvV,
    a: AssetV,
    frag: Option<Seq<char>>,
    depth: nat,
) -> Seq<char>
    decreases depth, 0nat, 0int,
{
    if depth > 0 {
        css_string_of(
            data_url_of(
                a.media_type,
                a.charset,
                base64_of(
                    encode_utf8(
                        spec_embed(env, a.final_url, utf8_lossy_of(a.bytes), (depth - 1) as nat),
                    ),
                ),
                frag,
            ),
        )
    } else {
        Seq::empty()
    }
}

/// One token's effect: the text it contributes, the context afterwards, and
/// the registry afterwards.
pub open spec fn spec_step(
    env: EnvV,
    base: Seq<char>,
    t: CssToken,
    ctx: CtxV,
    reg: Seq<EntryV>,
    depth: nat,
) -> (Seq<char>, CtxV, Seq<EntryV>)
    decreases depth, tok_size(t), 1int,
    via spec_step_dec
{
    match t {
        CssToken::Verbatim(s) => (s@, ctx, reg),
        CssToken::Ident(v) => (
            fmt_ident_of(v@),
            CtxV { rule: Seq::empty(), prop: v@, func: ctx.func },
            reg,
        ),
        CssToken::AtKeyword(v) => {
            let ctx2 = CtxV { rule: v@, prop: ctx.prop, func: ctx.func };
            if env.no_fonts && v@ == "font-face"@ {
                (Seq::empty(), ctx2, reg)
            } else {
                ("@"@ + v@, ctx2, reg)
            }
        },
        CssToken::Hash(v) => ("#"@ + v@, ctx, reg),
        CssToken::IdHash(v) => (
            "#"@ + fmt_ident_of(v@),
            CtxV { rule: Seq::empty(), prop: ctx.prop, func: ctx.func },
            reg,
        ),
        CssToken::Num { has_sign, non_negative, text, suffix } => (
            if has_sign && non_negative {
                "+"@ + text@ + suffix@
            } else {
                text@ + suffix@
            },
            ctx,
            reg,
        ),
        CssToken::Bad => (Seq::empty(), ctx, reg),
        CssToken::Block(kind, inner) => {
            if env.no_fonts && ctx.rule == "font-face"@ {
                (Seq::empty(), CtxV { rule: Seq::empty(), prop: ctx.prop, func: ctx.func }, reg)
            } else {
                let ctx_in = CtxV { rule: ctx.rule, prop: ctx.prop, func: Seq::empty() };
                let r = spec_css(env, base, inner@, 0, ctx_in, reg, depth);
                (open_of(kind) + norm_sp(r.0) + close_of(kind), ctx, r.1)
            }
        },
        CssToken::Function(name, inner) => {
            let ctx_in = CtxV { rule: ctx.rule, prop: ctx.prop, func: name@ };
            let r = spec_css(env, base, inner@, 0, ctx_in, reg, depth);
            let body = norm_sp(r.0);
            if ieq(name@, "url"@) {
                let tr = trim_start_sp(body);
                if tr.len() == 0 {
                    ("url()"@, ctx, r.1)
                } else if spec_starts_with(tr, "url("@) || spec_starts_with(tr, "var("@) {
                    (body, ctx, r.1)
                } else {
                    ("url("@ + body + ")"@, ctx, r.1)
                }
            } else {
                (name@ + "("@ + body + ")"@, ctx, r.1)
            }
        },
        CssToken::QuotedString(v) => {
            if ctx.rule == "import"@ {
                let ctx2 = CtxV { rule: Seq::empty(), prop: ctx.prop, func: ctx.func };
                if v@.len() == 0 {
                    ("''"@, ctx2, reg)
                } else if spec_starts_with(v@, "data:"@) {
                    (css_string_of(v@), ctx2, reg)
                } else {
                    match fetch_find(env.entries, base, v@) {
                        Option::Some(res) => match res.asset {
                            Option::Some(a) => if depth > 0 {
                                (import_replacement(env, a, res.fragment, depth), ctx2, reg)
                            } else {
                                (preserve_quoted_sp(res), ctx2, reg)
                            },
                            Option::None => (preserve_quoted_sp(res), ctx2, reg),
                        },
                        Option::None => (Seq::empty(), ctx2, reg),
                    }
                }
            } else if ctx.func == "url"@ {
                if v@.len() == 0 {
                    (Seq::empty(), ctx, reg)
                } else if v@[0] == '#' {
                    (css_string_of(v@), ctx, reg)
                } else if env.no_images && is_image_prop_sp(ctx.prop) {
                    (css_string_of(empty_image_sp()), ctx, reg)
                } else if spec_starts_with(v@, "data:"@) {
                    (css_string_of(v@), ctx, reg)
                } else {
                    match fetch_find(env.entries, base, v@) {
                        Option::Some(res) => match res.asset {
                            Option::Some(a) => if is_image_prop_sp(ctx.prop)
                                && env.dedup_assets {
                                match reg_find(reg, a.final_url) {
                                    Option::Some(e) => ("var(--"@ + e.name + ")"@, ctx, reg),
                                    Option::None => {
                                        let nm = "img-"@ + sha256_hex_of(a.final_url);
                                        let e = EntryV {
                                            url: a.final_url,
                                            name: nm,
                                            data: asset_data_url(a, res.fragment),
                                        };
                                        ("var(--"@ + nm + ")"@, ctx, reg.push(e))
                                    },
                                }
                            } else {
                                ("url("@ + asset_data_url(a, res.fragment) + ")"@, ctx, reg)
                            },
                            Option::None => if web_scheme(res.scheme) {
                                ("url("@ + css_string_of(res.abs_url) + ")"@, ctx, reg)
                            } else {
                                (Seq::empty(), ctx, reg)
                            },
                        },
                        Option::None => (Seq::empty(), ctx, reg),
                    }
                }
            } else {
                (css_string_of(v@), ctx, reg)
            }
        },
        CssToken::UnquotedUrl(v) => {
            let ctx2 = if ctx.rule == "import"@ {
                CtxV { rule: Seq::empty(), prop: ctx.prop, func: ctx.func }
            } else {
                ctx
            };
            if v@.len() == 0 {
                ("url()"@, ctx2, reg)
            } else if v@[0] == '#' {
                ("url("@ + v@ + ")"@, ctx2, reg)
            } else if ctx.rule == "import"@ {
                if spec_starts_with(v@, "data:"@) {
                    ("url("@ + css_string_of(v@) + ")"@, ctx2, reg)
                } else {
                    match fetch_find(env.entries, base, v@) {
                        Option::Some(res) => match res.asset {
                            Option::Some(a) => if depth > 0 {
                                (
                                    "url("@ + import_replacement(env, a, res.fragment, depth)
                                        + ")"@,
                                    ctx2,
                                    reg,
                                )
                            } else {
                                (preserve_url_sp(res), ctx2, reg)
                            },
                            Option::None => (preserve_url_sp(res), ctx2, reg),
                        },
                        Option::None => ("url()"@, ctx2, reg),
                    }
                }
            } else if env.no_images && is_image_prop_sp(ctx.prop) {
                ("url("@ + css_string_of(empty_image_sp()) + ")"@, ctx2, reg)
            } else if spec_starts_with(v@, "data:"@) {
                ("url("@ + css_string_of(v@) + ")"@, ctx2, reg)
            } else {
                match fetch_find(env.entries, base, v@) {
                    Option::Some(res) => match res.asset {
                        Option::Some(a) => if is_image_prop_sp(ctx.prop) && env.dedup_assets {
                            match reg_find(reg, a.final_url) {
                                Option::Some(e) => ("var(--"@ + e.name + ")"@, ctx2, reg),
                                Option::None => {
                                    let nm = "img-"@ + sha256_hex_of(a.final_url);
                                    let e = EntryV {
                                        url: a.final_url,
                                        name: nm,
                                        data: asset_data_url(a, res.fragment),
                                    };
                                    ("var(--"@ + nm + ")"@, ctx2, reg.push(e))
                                },
                            }
                        } else {
                            ("url("@ + asset_data_url(a, res.fragment) + ")"@, ctx2, reg)
                        },
                        Option::None => (preserve_url_sp(res), ctx2, reg),
                    },
                    Option::None => ("url()"@, ctx2, reg),
                }
            }
        },
    }
}

#[via_fn]
proof fn spec_step_dec(
    env: EnvV,
    base: Seq<char>,
    t: CssToken,
    ctx: CtxV,
    reg: Seq<EntryV>,
    depth: nat,
) {
    lemma_tok_size_pos(t);
    match t {
        CssToken::Block(_, inner) => {
            lemma_toks_size_all(inner@);
        },
        CssToken::Function(_, inner) => {
            lemma_toks_size_all(inner@);
        },
        _ => {},
    }
}

/// The output text and final registry of rewriting the tokens from position
/// `i` on, within one nesting level.
pub open spec fn spec_css(
    env: EnvV,
    base: Seq<char>,
    toks: Seq<CssToken>,
    i: int,
    ctx: CtxV,
    reg: Seq<EntryV>,
    depth: nat,
) -> (Seq<char>, Seq<EntryV>)
    decreases depth, toks_size(toks.skip(i)), 2int,
    via spec_css_dec
{
    if i < 0 || i >= toks.len() {
        (Seq::empty(), reg)
    } else {
        let st = spec_step(env, base, toks[i], ctx, reg, depth);
        let rest = spec_css(env, base, toks, i + 1, st.1, st.2, depth);
        (st.0 + rest.0, rest.1)
    }
}

#[via_fn]
proof fn spec_css_dec(
    env: EnvV,
    base: Seq<char>,
    toks: Seq<CssToken>,
    i: int,
    ctx: CtxV,
    reg: Seq<EntryV>,
    depth: nat,
) {
    if 0 <= i < toks.len() {
        lemma_toks_size_skip(toks, i);
        lemma_tok_size_pos(toks[i]);
    }
}

/// The whole embedding of one stylesheet text: its rewritten body followed by
/// the trailer of custom-property declarations its registry gathered.
pub open spec fn spec_embed(env: EnvV, base: Seq<char>, css: Seq<char>, depth: nat) -> Seq<char>
    decreases depth, toks_size(tokens_of(css)), 3int,
    via spec_embed_dec
{
    let ctx0 = CtxV { rule: Seq::empty(), prop: Seq::empty(), func: Seq::empty() };
    let r = spec_css(env, base, tokens_of(css), 0, ctx0, Seq::empty(), depth);
    norm_sp(r.0) + trailer_of(r.1, 0)
}

#[via_fn]
proof fn spec_embed_dec(env: EnvV, base: Seq<char>, css: Seq<char>, depth: nat) {
    lemma_toks_size_all(tokens_of(css));
}

/// Collapses a nonempty all-whitespace fragment to the empty string.
fn normalize(s: String) -> (r: String)
    ensures
        r@ == norm_sp(s@),
{
    let n = s.as_str().unicode_len();
    if n == 0 {
        return s;
    }
    let k = first_nonspace(s.as_str());
    if k == n {
        String::new()
    } else {
        proof {
            assert(!is_space_c(s@[k as int]));
        }
        s
    }
}

/// Whether a reference literal is already an inline data URL.
fn starts_with_data(s: &str) -> (r: bool)
    ensures
        r == spec_starts_with(s@, "data:"@),
{
    let r = starts_with_at(s, 0, "data:");
    proof {
        assert(s@.skip(0) =~= s@);
    }
    r
}

/// What an unretrievable reference leaves behind in string position.
fn preserve_quoted(res: &crate::fetch::Resolution) -> (r: String)
    ensures
        r@ == preserve_quoted_sp(res@),
{
    if str_eq(res.scheme.as_str(), "http") || str_eq(res.scheme.as_str(), "https") {
        format_quoted_string(res.abs_url.as_str())
    } else {
        String::new()
    }
}

/// What an unretrievable reference leaves behind in `url(...)` position.
fn preserve_url(res: &crate::fetch::Resolution) -> (r: String)
    ensures
        r@ == preserve_url_sp(res@),
{
    if str_eq(res.scheme.as_str(), "http") || str_eq(res.scheme.as_str(), "https") {
        let mut p = String::from_str("url(");
        p.append(format_quoted_string(res.abs_url.as_str()).as_str());
        p.append(")");
        proof {
            assert(p@ =~= "url("@ + css_string_of(res@.abs_url) + ")"@);
        }
        p
    } else {
        String::from_str("url()")
    }
}

/// Fetched image reference under deduplication, first occurrence: builds the
/// quoted data URL once, registers it under a digest-derived name, and hands
/// back the `var(...)` reference.
fn dedup_insert(
    a: &crate::fetch::ResolvedAsset,
    frag: &Option<String>,
    reg: &mut Vec<RegEntry>,
) -> (p: String)
    ensures
        ({
            let nm = "img-"@ + sha256_hex_of(a@.final_url);
            let e = (EntryV {
                url: a@.final_url,
                name: nm,
                data: asset_data_url(a@, crate::encode::opt_frag_view(*frag)),
            });
            p@ == "var(--"@ + nm + ")"@ && reg_v(final(reg)@) == reg_v(old(reg)@).push(e)
        }),
{
    let durl = encode_data_url(a.media_type.as_str(), a.charset.as_str(), &a.bytes, frag);
    let q = format_quoted_string(durl.as_str());
    let h = hash_url(a.final_url.clone());
    let mut nm = String::from_str("img-");
    nm.append(h.as_str());
    let entry = RegEntry {
        url: a.final_url.clone(),
        asset: CssPropAsset { prop_name: nm.clone(), data_url: q },
    };
    reg.push(entry);
    let mut p = String::from_str("var(--");
    p.append(nm.as_str());
    p.append(")");
    proof {
        let nmv = "img-"@ + sha256_hex_of(a@.final_url);
        let e = (EntryV {
            url: a@.final_url,
            name: nmv,
            data: asset_data_url(a@, crate::encode::opt_frag_view(*frag)),
        });
        assert(nm@ =~= nmv);
        assert(reg_v(reg@) =~= reg_v(old(reg)@).push(e));
        assert(p@ =~= "var(--"@ + nmv + ")"@);
    }
    p
}

/// Rewrites the tokens from position `i` on within one nesting level: copies
/// plain tokens, tracks the rule, property and function context, descends
/// into blocks and functions, replaces references as the policy says, and
/// fills the registry; exactly what the specification function states.
#[verifier::rlimit(100)]
pub fn process_css(
    env: &Env,
    base: &str,
    toks: &Vec<CssToken>,
    i: usize,
    ctx: Ctx,
    reg: &mut Vec<RegEntry>,
    depth: u32,
) -> (out: String)
    requires
        i <= toks@.len(),
    ensures
        ({
            let r = spec_css(env@, base@, toks@, i as int, ctx@, reg_v(old(reg)@), depth as nat);
            out@ == r.0 && reg_v(final(reg)@) == r.1
        }),
    decreases depth, toks_size(toks@.skip(i as int)), 2int,
{
    if i == toks.len() {
        return String::new();
    }
    let ghost regv0 = reg_v(reg@);
    let ghost st = spec_step(env@, base@, toks@[i as int], ctx@, regv0, depth as nat);
    proof {
        lemma_toks_size_skip(toks@, i as int);
        lemma_tok_size_pos(toks@[i as int]);
    }
    let t = &toks[i];
    let (piece, ctx2): (String, Ctx) = match t {
        CssToken::Verbatim(s) => (s.clone(), ctx),
        CssToken::Ident(v) => {
            let p = format_ident(v.as_str());
            let c2 = Ctx { rule: String::new(), prop: v.clone(), func: ctx.func };
            (p, c2)
        },
        CssToken::AtKeyword(v) => {
            let c2 = Ctx { rule: v.clone(), prop: ctx.prop, func: ctx.func };
            if env.no_fonts && str_eq(v.as_str(), "font-face") {
                (String::new(), c2)
            } else {
                let mut p = String::from_str("@");
                p.append(v.as_str());
                (p, c2)
            }
        },
        CssToken::Hash(v) => {
            let mut p = String::from_str("#");
            p.append(v.as_str());
            (p, ctx)
        },
        CssToken::IdHash(v) => {
            let mut p = String::from_str("#");
            p.append(format_ident(v.as_str()).as_str());
            let c2 = Ctx { rule: String::new(), prop: ctx.prop, func: ctx.func };
            (p, c2)
        },
        CssToken::Num { has_sign, non_negative, text, suffix } => {
            let mut p = if *has_sign && *non_negative {
                String::from_str("+")
            } else {
                String::new()
            };
            p.append(text.as_str());
            p.append(suffix.as_str());
            proof {
                if *has_sign && *non_negative {
                    assert(p@ =~= "+"@ + text@ + suffix@);
                } else {
                    assert(p@ =~= text@ + suffix@);
                }
            }
            (p, ctx)
        },
        CssToken::Bad => (String::new(), ctx),
        CssToken::Block(kind, inner) => {
            if env.no_fonts && str_eq(ctx.rule.as_str(), "font-face") {
                (String::new(), Ctx { rule: String::new(), prop: ctx.prop, func: ctx.func })
            } else {
                let c_in = Ctx {
                    rule: ctx.rule.clone(),
                    prop: ctx.prop.clone(),
                    func: String::new(),
                };
                proof {
                    lemma_toks_size_all(inner@);
                }
                let o = process_css(env, base, inner, 0, c_in, reg, depth);
                let o2 = normalize(o);
                let (opens, closes): (&str, &str) = match kind {
                    BlockKind::Paren => ("(", ")"),
                    BlockKind::Bracket => ("[", "]"),
                    BlockKind::Brace => ("{", "}"),
                };
                proof {
                    assert(opens@ == open_of(*kind) && closes@ == close_of(*kind));
                }
                let mut p = String::from_str(opens);
                p.append(o2.as_str());
                p.append(closes);
                proof {
                    assert(p@ =~= open_of(*kind) + o2@ + close_of(*kind));
                }
                (p, ctx)
            }
        },
        CssToken::Function(name, inner) => {
            let c_in = Ctx { rule: ctx.rule.clone(), prop: ctx.prop.clone(), func: name.clone() };
            proof {
                lemma_toks_size_all(inner@);
            }
            let o = process_css(env, base, inner, 0, c_in, reg, depth);
            let body = normalize(o);
            if eq_ignore_case(name.as_str(), "url") {
                let n = body.as_str().unicode_len();
                let k = first_nonspace(body.as_str());
                proof {
                    lemma_trim_start_skip(body@, k as int);
                }
                if k == n {
                    (String::from_str("url()"), ctx)
                } else {
                    let w1 = starts_with_at(body.as_str(), k, "url(");
                    let w2 = starts_with_at(body.as_str(), k, "var(");
                    if w1 || w2 {
                        (body, ctx)
                    } else {
                        let mut p = String::from_str("url(");
                        p.append(body.as_str());
                        p.append(")");
                        proof {
                            assert(p@ =~= "url("@ + body@ + ")"@);
                        }
                        (p, ctx)
                    }
                }
            } else {
                let mut p = name.clone();
                p.append("(");
                p.append(body.as_str());
                p.append(")");
                proof {
                    assert(p@ =~= name@ + "("@ + body@ + ")"@);
                }
                (p, ctx)
            }
        },
        CssToken::QuotedString(v) => {
            if str_eq(ctx.rule.as_str(), "import") {
                let c2 = Ctx { rule: String::new(), prop: ctx.prop, func: ctx.func };
                if v.as_str().is_empty() {
                    (String::from_str("''"), c2)
                } else if starts_with_data(v.as_str()) {
                    (format_quoted_string(v.as_str()), c2)
                } else {
                    match fetch_lookup(env, base, v.as_str()) {
                        Option::Some(j) => {
                            let res = &env.entries[j].resolution;
                            match &res.asset {
                                Option::Some(a) => {
                                    if depth > 0 {
                                        let txt = from_utf8_lossy(&a.bytes);
                                        let emb = embed_at(
                                            env,
                                            a.final_url.as_str(),
                                            txt.as_str(),
                                            depth - 1,
                                        );
                                        let emb_bytes = emb.as_str().as_bytes_vec();
                                        let durl = encode_data_url(
                                            a.media_type.as_str(),
                                            a.charset.as_str(),
                                            &emb_bytes,
                                            &res.fragment,
                                        );
                                        let p = format_quoted_string(durl.as_str());
                                        proof {
                                            assert(p@ == import_replacement(
                                                env@,
                                                a@,
                                                res@.fragment,
                                                depth as nat,
                                            ));
                                        }
                                        (p, c2)
                                    } else {
                                        (preserve_quoted(res), c2)
                                    }
                                },
                                Option::None => (preserve_quoted(res), c2),
                            }
                        },
                        Option::None => (String::new(), c2),
                    }
                }
            } else if str_eq(ctx.func.as_str(), "url") {
                if v.as_str().is_empty() {
                    (String::new(), ctx)
                } else if v.as_str().get_char(0) == '#' {
                    (format_quoted_string(v.as_str()), ctx)
                } else if env.no_images && is_image_url_prop(ctx.prop.as_str()) {
                    (format_quoted_string(empty_image_data_url()), ctx)
                } else if starts_with_data(v.as_str()) {
                    (format_quoted_string(v.as_str()), ctx)
                } else {
                    match fetch_lookup(env, base, v.as_str()) {
                        Option::Some(j) => {
                            let res = &env.entries[j].resolution;
                            match &res.asset {
                                Option::Some(a) => {
                                    if is_image_url_prop(ctx.prop.as_str()) && env.dedup_assets {
                                        match reg_lookup(reg, a.final_url.as_str()) {
                                            Option::Some(x) => {
                                                let mut p = String::from_str("var(--");
                                                p.append(reg[x].asset.prop_name.as_str());
                                                p.append(")");
                                                proof {
                                                    assert(p@ =~= "var(--"@
                                                        + reg@[x as int]@.name + ")"@);
                                                }
                                                (p, ctx)
                                            },
                                            Option::None => (dedup_insert(a, &res.fragment, reg), ctx),
                                        }
                                    } else {
                                        let durl = encode_data_url(
                                            a.media_type.as_str(),
                                            a.charset.as_str(),
                                            &a.bytes,
                                            &res.fragment,
                                        );
                                        let mut p = String::from_str("url(");
                                        p.append(format_quoted_string(durl.as_str()).as_str());
                                        p.append(")");
                                        proof {
                                            assert(p@ =~= "url("@
                                                + asset_data_url(a@, res@.fragment) + ")"@);
                                        }
                                        (p, ctx)
                                    }
                                },
                                Option::None => {
                                    if str_eq(res.scheme.as_str(), "http") || str_eq(
                                        res.scheme.as_str(),
                                        "https",
                                    ) {
                                        let mut p = String::from_str("url(");
                                        p.append(
                                            format_quoted_string(res.abs_url.as_str()).as_str(),
                                        );
                                        p.append(")");
                                        proof {
                                            assert(p@ =~= "url("@ + css_string_of(res@.abs_url)
                                                + ")"@);
                                        }
                                        (p, ctx)
                                    } else {
                                        (String::new(), ctx)
                                    }
                                },
                            }
                        },
                        Option::None => (String::new(), ctx),
                    }
                }
            } else {
                (format_quoted_string(v.as_str()), ctx)
            }
        },
        CssToken::UnquotedUrl(v) => {
            let is_import = str_eq(ctx.rule.as_str(), "import");
            let c2 = if is_import {
                Ctx { rule: String::new(), prop: ctx.prop.clone(), func: ctx.func.clone() }
            } else {
                Ctx { rule: ctx.rule.clone(), prop: ctx.prop.clone(), func: ctx.func.clone() }
            };
            if v.as_str().is_empty() {
                (String::from_str("url()"), c2)
            } else if v.as_str().get_char(0) == '#' {
                let mut p = String::from_str("url(");
                p.append(v.as_str());
                p.append(")");
                proof {
                    assert(p@ =~= "url("@ + v@ + ")"@);
                }
                (p, c2)
            } else if is_import {
                if starts_with_data(v.as_str()) {
                    let mut p = String::from_str("url(");
                    p.append(format_quoted_string(v.as_str()).as_str());
                    p.append(")");
                    proof {
                        assert(p@ =~= "url("@ + css_string_of(v@) + ")"@);
                    }
                    (p, c2)
                } else {
                    match fetch_lookup(env, base, v.as_str()) {
                    Option::Some(j) => {
                        let res = &env.entries[j].resolution;
                        match &res.asset {
                            Option::Some(a) => {
                                if depth > 0 {
                                    let txt = from_utf8_lossy(&a.bytes);
                                    let emb = embed_at(
                                        env,
                                        a.final_url.as_str(),
                                        txt.as_str(),
                                        depth - 1,
                                    );
                                    let emb_bytes = emb.as_str().as_bytes_vec();
                                    let durl = encode_data_url(
                                        a.media_type.as_str(),
                                        a.charset.as_str(),
                                        &emb_bytes,
                                        &res.fragment,
                                    );
                                    let mut p = String::from_str("url(");
                                    p.append(format_quoted_string(durl.as_str()).as_str());
                                    p.append(")");
                                    proof {
                                        assert(p@ =~= "url("@ + import_replacement(
                                            env@,
                                            a@,
                                            res@.fragment,
                                            depth as nat,
                                        ) + ")"@);
                                    }
                                    (p, c2)
                                } else {
                                    (preserve_url(res), c2)
                                }
                            },
                            Option::None => (preserve_url(res), c2),
                        }
                    },
                    Option::None => (String::from_str("url()"), c2),
                    }
                }
            } else if env.no_images && is_image_url_prop(ctx.prop.as_str()) {
                let mut p = String::from_str("url(");
                p.append(format_quoted_string(empty_image_data_url()).as_str());
                p.append(")");
                proof {
                    assert(p@ =~= "url("@ + css_string_of(empty_image_sp()) + ")"@);
                }
                (p, c2)
            } else if starts_with_data(v.as_str()) {
                let mut p = String::from_str("url(");
                p.append(format_quoted_string(v.as_str()).as_str());
                p.append(")");
                proof {
                    assert(p@ =~= "url("@ + css_string_of(v@) + ")"@);
                }
                (p, c2)
            } else {
                match fetch_lookup(env, base, v.as_str()) {
                    Option::Some(j) => {
                        let res = &env.entries[j].resolution;
                        match &res.asset {
                            Option::Some(a) => {
                                if is_image_url_prop(ctx.prop.as_str()) && env.dedup_assets {
                                    match reg_lookup(reg, a.final_url.as_str()) {
                                        Option::Some(x) => {
                                            let mut p = String::from_str("var(--");
                                            p.append(reg[x].asset.prop_name.as_str());
                                            p.append(")");
                                            proof {
                                                assert(p@ =~= "var(--"@ + reg@[x as int]@.name
                                                    + ")"@);
                                            }
                                            (p, c2)
                                        },
                                        Option::None => (dedup_insert(a, &res.fragment, reg), c2),
                                    }
                                } else {
                                    let durl = encode_data_url(
                                        a.media_type.as_str(),
                                        a.charset.as_str(),
                                        &a.bytes,
                                        &res.fragment,
                                    );
                                    let mut p = String::from_str("url(");
                                    p.append(format_quoted_string(durl.as_str()).as_str());
                                    p.append(")");
                                    proof {
                                        assert(p@ =~= "url("@ + asset_data_url(a@, res@.fragment)
                                            + ")"@);
                                    }
                                    (p, c2)
                                }
                            },
                            Option::None => (preserve_url(res), c2),
                        }
                    },
                    Option::None => (String::from_str("url()"), c2),
                }
            }
        },
    };
    proof {
        assert(piece@ == st.0 && ctx2@ == st.1 && reg_v(reg@) == st.2);
    }
    let rest = process_css(env, base, toks, i + 1, ctx2, reg, depth);
    let out = piece.concat(rest.as_str());
    out
}

/// Embeds one stylesheet text: rewrites it against its base URL with a fresh
/// registry of its own, allowing `depth` further levels of `@import`
/// embedding, and appends the registry's trailer declarations.
pub fn embed_at(env: &Env, base: &str, css: &str, depth: u32) -> (out: String)
    ensures
        out@ == spec_embed(env@, base@, css@, depth as nat),
    decreases depth, toks_size(tokens_of(css@)), 3int,
{
    let toks = tokenize(css);
    let mut reg: Vec<RegEntry> = Vec::new();
    let ctx = Ctx { rule: String::new(), prop: String::new(), func: String::new() };
    proof {
        lemma_toks_size_all(tokens_of(css@));
        assert(reg_v(reg@) =~= Seq::<EntryV>::empty());
    }
    let o = process_css(env, base, &toks, 0, ctx, &mut reg, depth);
    let body = normalize(o);
    let tr = emit_trailer(&reg);
    let out = body.concat(tr.as_str());
    out
}

/// Embeds one stylesheet against its document's URL: every external reference
/// the resolver's table answers for becomes a self-contained inline one.
pub fn embed_css(env: &Env, document_url: &str, css: &str) -> (out: String)
    ensures
        out@ == spec_embed(env@, document_url@, css@, 64),
{
    embed_at(env, document_url, css, 64)
}

} // verus!
