use vstd::prelude::*;
use crate::classify::is_image_prop_sp;
use crate::digest::sha256_hex_of;
use crate::fetch::{AssetV, EnvV, ResolutionV, fetch_find};
use crate::registry::{EntryV, reg_find, reg_find_from};
use crate::rewrite::{
    CtxV, asset_data_url, empty_image_sp, import_replacement, spec_css, spec_embed, spec_step,
};
use crate::serialize::css_string_of;
use crate::text::{is_space_c, lemma_trim_start_skip, spec_starts_with, trim_start_sp};
use crate::tokenize::tokens_of;
use crate::tokens::{
    BlockKind, CssToken, lemma_tok_size_pos, lemma_toks_size_all, lemma_toks_size_skip, tok_size,
    toks_size,
};

verus! {

/// Law: the digest that names a deduplicated asset is a pure function of the
/// URL text alone: equal URL texts give equal digests, across calls and runs.
pub proof fn lemma_hash_url_pure(a: Seq<char>, b: Seq<char>)
    requires
        a == b,
    ensures
        sha256_hex_of(a) == sha256_hex_of(b),
{
}

/// A well-formed registry: every row's name is the digest-derived name of its
/// final URL, and no two rows share a final URL.
pub open spec fn reg_wf(reg: Seq<EntryV>) -> bool {
    (forall|i: int|
        0 <= i < reg.len() ==> (#[trigger] reg[i]).name == "img-"@ + sha256_hex_of(reg[i].url))
        && (forall|i: int, j: int|
        0 <= i < j < reg.len() ==> (#[trigger] reg[i]).url != (#[trigger] reg[j]).url)
}

proof fn lemma_find_none(reg: Seq<EntryV>, url: Seq<char>, i: int)
    requires
        0 <= i,
        reg_find_from(reg, url, i) is None,
    ensures
        forall|j: int| i <= j < reg.len() ==> (#[trigger] reg[j]).url != url,
    decreases reg.len() - i,
{
    if i < reg.len() {
        lemma_find_none(reg, url, i + 1);
    }
}

proof fn lemma_push_entry_wf(reg: Seq<EntryV>, a: AssetV, frag: Option<Seq<char>>)
    requires
        reg_wf(reg),
        reg_find(reg, a.final_url) is None,
    ensures
        ({
            let e = (EntryV {
                url: a.final_url,
                name: "img-"@ + sha256_hex_of(a.final_url),
                data: asset_data_url(a, frag),
            });
            reg_wf(reg.push(e))
        }),
{
    lemma_find_none(reg, a.final_url, 0);
    let e = (EntryV {
        url: a.final_url,
        name: "img-"@ + sha256_hex_of(a.final_url),
        data: asset_data_url(a, frag),
    });
    let r2 = reg.push(e);
    assert forall|i: int|
        0 <= i < r2.len() implies (#[trigger] r2[i]).name == "img-"@ + sha256_hex_of(
        r2[i].url,
    ) by {
        if i < reg.len() {
            assert(r2[i] == reg[i]);
        } else {
            assert(r2[i] == e);
        }
    }
    assert forall|i: int, j: int|
        0 <= i < j < r2.len() implies (#[trigger] r2[i]).url != (#[trigger] r2[j]).url by {
        if j < reg.len() {
            assert(r2[i] == reg[i] && r2[j] == reg[j]);
        } else {
            assert(r2[j] == e && r2[i] == reg[i]);
        }
    }
}

/// One token's step keeps the registry well formed.
pub proof fn lemma_step_reg_wf(
    env: EnvV,
    base: Seq<char>,
    t: CssToken,
    ctx: CtxV,
    reg: Seq<EntryV>,
    depth: nat,
)
    requires
        reg_wf(reg),
    ensures
        reg_wf(spec_step(env, base, t, ctx, reg, depth).2),
    decreases depth, tok_size(t), 1int,
{
    lemma_tok_size_pos(t);
    match t {
        CssToken::Block(kind, inner) => {
            lemma_toks_size_all(inner@);
            if !(env.no_fonts && ctx.rule == "font-face"@) {
                let ctx_in = (CtxV { rule: ctx.rule, prop: ctx.prop, func: Seq::empty() });
                lemma_css_reg_wf(env, base, inner@, 0, ctx_in, reg, depth);
            }
        },
        CssToken::Function(name, inner) => {
            lemma_toks_size_all(inner@);
            let ctx_in = (CtxV { rule: ctx.rule, prop: ctx.prop, func: name@ });
            lemma_css_reg_wf(env, base, inner@, 0, ctx_in, reg, depth);
        },
        CssToken::QuotedString(v) => {
            if ctx.rule != "import"@ && ctx.func == "url"@ && v@.len() > 0 && v@[0] != '#'
                && !(env.no_images && is_image_prop_sp(ctx.prop)) && !spec_starts_with(
                v@,
                "data:"@,
            ) {
                match fetch_find(env.entries, base, v@) {
                    Option::Some(res) => match res.asset {
                        Option::Some(a) => {
                            if is_image_prop_sp(ctx.prop) && env.dedup_assets && reg_find(
                                reg,
                                a.final_url,
                            ) is None {
                                lemma_push_entry_wf(reg, a, res.fragment);
                            }
                        },
                        Option::None => {},
                    },
                    Option::None => {},
                }
            }
        },
        CssToken::UnquotedUrl(v) => {
            if ctx.rule != "import"@ && v@.len() > 0 && v@[0] != '#' && !(env.no_images
                && is_image_prop_sp(ctx.prop)) && !spec_starts_with(v@, "data:"@) {
                match fetch_find(env.entries, base, v@) {
                    Option::Some(res) => match res.asset {
                        Option::Some(a) => {
                            if is_image_prop_sp(ctx.prop) && env.dedup_assets && reg_find(
                                reg,
                                a.final_url,
                            ) is None {
                                lemma_push_entry_wf(reg, a, res.fragment);
                            }
                        },
                        Option::None => {},
                    },
                    Option::None => {},
                }
            }
        },
        _ => {},
    }
}

/// A whole level's walk keeps the registry well formed.
pub proof fn lemma_css_reg_wf(
    env: EnvV,
    base: Seq<char>,
    toks: Seq<CssToken>,
    i: int,
    ctx: CtxV,
    reg: Seq<EntryV>,
    depth: nat,
)
    requires
        reg_wf(reg),
    ensures
        reg_wf(spec_css(env, base, toks, i, ctx, reg, depth).1),
    decreases depth, toks_size(toks.skip(i)), 2int,
{
    if 0 <= i < toks.len() {
        lemma_toks_size_skip(toks, i);
        lemma_tok_size_pos(toks[i]);
        lemma_step_reg_wf(env, base, toks[i], ctx, reg, depth);
        let st = spec_step(env, base, toks[i], ctx, reg, depth);
        lemma_css_reg_wf(env, base, toks, i + 1, st.1, st.2, depth);
    }
}

/// Law: within one embedding, two references resolving to the same final URL
/// share one digest-derived custom-property name, and the registry that the
/// trailer is emitted from holds exactly one row per final URL.
pub proof fn lemma_dedup_registry(env: EnvV, base: Seq<char>, css: Seq<char>, depth: nat)
    ensures
        ({
            let ctx0 = (CtxV { rule: Seq::empty(), prop: Seq::empty(), func: Seq::empty() });
            reg_wf(spec_css(env, base, tokens_of(css), 0, ctx0, Seq::empty(), depth).1)
        }),
{
    let ctx0 = (CtxV { rule: Seq::empty(), prop: Seq::empty(), func: Seq::empty() });
    assert(reg_wf(Seq::<EntryV>::empty()));
    lemma_css_reg_wf(env, base, tokens_of(css), 0, ctx0, Seq::empty(), depth);
}

/// Law: with images kept out, an image-carrying property's URL reference
/// becomes the fixed placeholder, whatever the resolver would have answered,
/// and neither the context nor the registry changes.
pub proof fn lemma_no_images_placeholder(
    env: EnvV,
    base: Seq<char>,
    v: String,
    ctx: CtxV,
    reg: Seq<EntryV>,
    depth: nat,
)
    requires
        env.no_images,
        is_image_prop_sp(ctx.prop),
        ctx.rule != "import"@,
        v@.len() > 0,
    ensures
        ctx.func == "url"@ && v@[0] != '#' ==> spec_step(
            env,
            base,
            CssToken::QuotedString(v),
            ctx,
            reg,
            depth,
        ) == (css_string_of(empty_image_sp()), ctx, reg),
        v@[0] != '#' ==> spec_step(env, base, CssToken::UnquotedUrl(v), ctx, reg, depth) == ((
            "url("@ + css_string_of(empty_image_sp()) + ")"@,
            ctx,
            reg,
        )),
{
}

/// Law: with fonts kept out, a `font-face` at-keyword emits nothing while
/// still setting the rule context, and the block that follows under that rule
/// emits nothing, leaves the registry as it was, and clears the rule context,
/// so every token after the block is rewritten as if the whole `font-face`
/// rule were absent.
pub proof fn lemma_no_fonts_dropped(
    env: EnvV,
    base: Seq<char>,
    v: String,
    kind: BlockKind,
    inner: Vec<CssToken>,
    ctx: CtxV,
    reg: Seq<EntryV>,
    depth: nat,
)
    requires
        env.no_fonts,
    ensures
        v@ == "font-face"@ ==> spec_step(env, base, CssToken::AtKeyword(v), ctx, reg, depth).0
            =~= Seq::<char>::empty(),
        v@ == "font-face"@ ==> spec_step(env, base, CssToken::AtKeyword(v), ctx, reg, depth).1.rule
            == "font-face"@,
        v@ == "font-face"@ ==> spec_step(env, base, CssToken::AtKeyword(v), ctx, reg, depth).2
            == reg,
        ctx.rule == "font-face"@ ==> spec_step(env, base, CssToken::Block(kind, inner), ctx, reg, depth)
            == ((
            Seq::<char>::empty(),
            (CtxV { rule: Seq::empty(), prop: ctx.prop, func: ctx.func }),
            reg,
        )),
{
}

/// Law: the three `@import` forms, a bare string, `url()` of a string, and a
/// bare `url()` literal, produce one embedded payload: the string form's
/// output wrapped as `url(...)` equals the two `url()` forms' outputs, and
/// none of the three touches the registry.
pub proof fn lemma_import_forms(
    env: EnvV,
    base: Seq<char>,
    v: String,
    name: String,
    inner: Vec<CssToken>,
    res: ResolutionV,
    a: AssetV,
    ctx: CtxV,
    reg: Seq<EntryV>,
    depth: nat,
)
    requires
        ctx.rule == "import"@,
        v@.len() > 0,
        v@[0] != '#',
        !spec_starts_with(v@, "data:"@),
        fetch_find(env.entries, base, v@) == Option::Some(res),
        res.asset == Option::Some(a),
        depth > 0,
        name@ == "url"@,
        inner@ =~= seq![CssToken::QuotedString(v)],
    ensures
        ({
            let q = spec_step(env, base, CssToken::QuotedString(v), ctx, reg, depth);
            let u = spec_step(env, base, CssToken::UnquotedUrl(v), ctx, reg, depth);
            let f = spec_step(env, base, CssToken::Function(name, inner), ctx, reg, depth);
            q.0 == import_replacement(env, a, res.fragment, depth) && u.0 == "url("@ + q.0 + ")"@
                && f.0 == u.0 && q.2 == reg && u.2 == reg && f.2 == reg
        }),
{
    let q = spec_step(env, base, CssToken::QuotedString(v), ctx, reg, depth);
    let u = spec_step(env, base, CssToken::UnquotedUrl(v), ctx, reg, depth);
    let f = spec_step(env, base, CssToken::Function(name, inner), ctx, reg, depth);
    let o1 = import_replacement(env, a, res.fragment, depth);
    assert(q.0 == o1);
    assert(u.0 == "url("@ + o1 + ")"@);
    let ctx_in = (CtxV { rule: ctx.rule, prop: ctx.prop, func: name@ });
    let r = spec_css(env, base, inner@, 0, ctx_in, reg, depth);
    let st0 = spec_step(env, base, inner@[0], ctx_in, reg, depth);
    assert(st0.0 == o1 && st0.2 == reg);
    assert(spec_css(env, base, inner@, 1, st0.1, st0.2, depth).0 =~= Seq::<char>::empty());
    assert(r.0 =~= o1);
    assert(o1[0] == '"');
    assert(!is_space_c('"'));
    assert(crate::rewrite::norm_sp(r.0) == o1) by {
        assert(!crate::text::spec_all_space(o1));
    }
    lemma_trim_start_skip(o1, 0);
    assert(o1.skip(0) =~= o1);
    assert(trim_start_sp(o1) == o1);
    reveal_strlit("url(");
    reveal_strlit("var(");
    reveal_strlit("url");
    assert(crate::classify::ieq(name@, "url"@));
    assert("url("@[0] == 'u' && "var("@[0] == 'v');
    assert(!crate::text::spec_starts_with(o1, "url("@));
    assert(!crate::text::spec_starts_with(o1, "var("@));
    assert(f.0 == "url("@ + o1 + ")"@);
    assert(f.2 == reg);
}

proof fn lemma_find_some(reg: Seq<EntryV>, url: Seq<char>, i: int)
    requires
        0 <= i,
    ensures
        match reg_find_from(reg, url, i) {
            Option::Some(e) => e.url == url && exists|j: int|
                i <= j < reg.len() && (#[trigger] reg[j]) == e,
            Option::None => true,
        },
    decreases reg.len() - i,
{
    if 0 <= i < reg.len() {
        if reg[i].url == url {
            assert(i <= i < reg.len() && reg[i] == reg[i]);
        } else {
            lemma_find_some(reg, url, i + 1);
        }
    }
}

/// Law: under deduplication, every retrievable image reference whose fetch
/// ends at the final URL of the asset `a` is replaced by one and the same
/// text, `var(--img-<digest of that URL>)`, whether or not that URL was
/// registered before, as long as the registry is well formed.
pub proof fn lemma_dedup_name_stable(
    env: EnvV,
    base: Seq<char>,
    v: String,
    res: ResolutionV,
    a: AssetV,
    ctx: CtxV,
    reg: Seq<EntryV>,
    depth: nat,
)
    requires
        reg_wf(reg),
        env.dedup_assets,
        !env.no_images,
        is_image_prop_sp(ctx.prop),
        ctx.rule != "import"@,
        v@.len() > 0,
        v@[0] != '#',
        !spec_starts_with(v@, "data:"@),
        fetch_find(env.entries, base, v@) == Option::Some(res),
        res.asset == Option::Some(a),
    ensures
        ctx.func == "url"@ ==> spec_step(env, base, CssToken::QuotedString(v), ctx, reg, depth).0
            == "var(--"@ + ("img-"@ + sha256_hex_of(a.final_url)) + ")"@,
        spec_step(env, base, CssToken::UnquotedUrl(v), ctx, reg, depth).0 == "var(--"@ + ("img-"@
            + sha256_hex_of(a.final_url)) + ")"@,
{
    match reg_find(reg, a.final_url) {
        Option::Some(e) => {
            lemma_find_some(reg, a.final_url, 0);
            assert(e.name == "img-"@ + sha256_hex_of(a.final_url)) by {
                let j = choose|j: int| 0 <= j < reg.len() && (#[trigger] reg[j]) == e;
                assert(reg[j].name == "img-"@ + sha256_hex_of(reg[j].url));
            }
        },
        Option::None => {},
    }
}

/// A token carrying no external reference: no unquoted URL literal other
/// than an empty or same-document fragment one, no `url()` function, and no
/// `import` at-keyword, at any nesting depth.
pub open spec fn ref_free_tok(t: CssToken) -> bool
    decreases t,
{
    match t {
        CssToken::UnquotedUrl(v) => v@.len() == 0 || v@[0] == '#',
        CssToken::AtKeyword(v) => v@ != "import"@,
        CssToken::Block(_, inner) => ref_free_toks(inner@),
        CssToken::Function(name, inner) => !crate::classify::ieq(name@, "url"@) && ref_free_toks(
            inner@,
        ),
        _ => true,
    }
}

pub open spec fn ref_free_toks(s: Seq<CssToken>) -> bool
    decreases s,
{
    if s.len() == 0 {
        true
    } else {
        ref_free_tok(s[0]) && ref_free_toks(s.drop_first())
    }
}

proof fn lemma_ref_free_index(s: Seq<CssToken>, j: int)
    requires
        ref_free_toks(s),
        0 <= j < s.len(),
    ensures
        ref_free_tok(s[j]),
    decreases j,
{
    if j > 0 {
        lemma_ref_free_index(s.drop_first(), j - 1);
        assert(s.drop_first()[j - 1] == s[j]);
    }
}

/// The plain re-serialization of one token, with no reference rewritten.
pub open spec fn ser_tok(t: CssToken) -> Seq<char>
    decreases tok_size(t), 0int,
    via ser_tok_dec
{
    match t {
        CssToken::Verbatim(s) => s@,
        CssToken::Ident(v) => crate::serialize::fmt_ident_of(v@),
        CssToken::AtKeyword(v) => "@"@ + v@,
        CssToken::Hash(v) => "#"@ + v@,
        CssToken::IdHash(v) => "#"@ + crate::serialize::fmt_ident_of(v@),
        CssToken::QuotedString(v) => css_string_of(v@),
        CssToken::UnquotedUrl(v) => if v@.len() == 0 {
            "url()"@
        } else {
            "url("@ + v@ + ")"@
        },
        CssToken::Num { has_sign, non_negative, text, suffix } => if has_sign && non_negative {
            "+"@ + text@ + suffix@
        } else {
            text@ + suffix@
        },
        CssToken::Bad => Seq::empty(),
        CssToken::Block(kind, inner) => crate::rewrite::open_of(kind) + crate::rewrite::norm_sp(
            ser_toks(inner@, 0),
        ) + crate::rewrite::close_of(kind),
        CssToken::Function(name, inner) => name@ + "("@ + crate::rewrite::norm_sp(
            ser_toks(inner@, 0),
        ) + ")"@,
    }
}

#[via_fn]
proof fn ser_tok_dec(t: CssToken) {
    match t {
        CssToken::Block(_, inner) => {
            lemma_toks_size_all(inner@);
        },
        CssToken::Function(_, inner) => {
            lemma_toks_size_all(inner@);
        },
        _ => {},
    }
}

/// The plain re-serialization of the tokens from position `i` on.
pub open spec fn ser_toks(toks: Seq<CssToken>, i: int) -> Seq<char>
    decreases toks_size(toks.skip(i)), 1int,
    via ser_toks_dec
{
    if i < 0 || i >= toks.len() {
        Seq::empty()
    } else {
        ser_tok(toks[i]) + ser_toks(toks, i + 1)
    }
}

#[via_fn]
proof fn ser_toks_dec(toks: Seq<CssToken>, i: int) {
    if 0 <= i < toks.len() {
        lemma_toks_size_skip(toks, i);
        lemma_tok_size_pos(toks[i]);
    }
}

/// One reference-free token contributes its plain serialization and changes
/// nothing else, as long as the walk is not inside `@import` or `url()`.
pub proof fn lemma_step_ref_free(
    env: EnvV,
    base: Seq<char>,
    t: CssToken,
    ctx: CtxV,
    reg: Seq<EntryV>,
    depth: nat,
)
    requires
        !env.no_fonts,
        ref_free_tok(t),
        ctx.rule != "import"@,
        ctx.func != "url"@,
    ensures
        ({
            let st = spec_step(env, base, t, ctx, reg, depth);
            st.0 == ser_tok(t) && st.2 == reg && st.1.rule != "import"@ && st.1.func != "url"@
        }),
    decreases depth, tok_size(t), 1int,
{
    reveal_strlit("import");
    reveal_strlit("url");
    match t {
        CssToken::Block(kind, inner) => {
            lemma_toks_size_all(inner@);
            let ctx_in = (CtxV { rule: ctx.rule, prop: ctx.prop, func: Seq::empty() });
            lemma_css_ref_free(env, base, inner@, 0, ctx_in, reg, depth);
        },
        CssToken::Function(name, inner) => {
            lemma_toks_size_all(inner@);
            assert(name@ != "url"@) by {
                if name@ == "url"@ {
                    assert(crate::classify::ieq(name@, "url"@));
                }
            }
            let ctx_in = (CtxV { rule: ctx.rule, prop: ctx.prop, func: name@ });
            lemma_css_ref_free(env, base, inner@, 0, ctx_in, reg, depth);
        },
        _ => {},
    }
}

/// A reference-free token sequence is rewritten to its plain serialization,
/// with the registry untouched.
pub proof fn lemma_css_ref_free(
    env: EnvV,
    base: Seq<char>,
    toks: Seq<CssToken>,
    i: int,
    ctx: CtxV,
    reg: Seq<EntryV>,
    depth: nat,
)
    requires
        !env.no_fonts,
        ref_free_toks(toks),
        0 <= i,
        ctx.rule != "import"@,
        ctx.func != "url"@,
    ensures
        spec_css(env, base, toks, i, ctx, reg, depth) == ((ser_toks(toks, i), reg)),
    decreases depth, toks_size(toks.skip(i)), 2int,
{
    if i < toks.len() {
        lemma_toks_size_skip(toks, i);
        lemma_tok_size_pos(toks[i]);
        lemma_ref_free_index(toks, i);
        lemma_step_ref_free(env, base, toks[i], ctx, reg, depth);
        let st = spec_step(env, base, toks[i], ctx, reg, depth);
        lemma_css_ref_free(env, base, toks, i + 1, st.1, st.2, depth);
    }
}

/// Law: a stylesheet whose tokens carry no external references, with fonts
/// kept, is embedded as its own plain re-serialization: the same tokens
/// written back out, whitespace and escaping normalized, with an empty
/// registry and so no trailer.
pub proof fn lemma_no_references_identity(env: EnvV, base: Seq<char>, css: Seq<char>, depth: nat)
    requires
        !env.no_fonts,
        ref_free_toks(tokens_of(css)),
    ensures
        spec_embed(env, base, css, depth) == crate::rewrite::norm_sp(ser_toks(tokens_of(css), 0)),
{
    reveal_strlit("import");
    reveal_strlit("url");
    let ctx0 = (CtxV { rule: Seq::empty(), prop: Seq::empty(), func: Seq::empty() });
    lemma_css_ref_free(env, base, tokens_of(css), 0, ctx0, Seq::<EntryV>::empty(), depth);
    assert(crate::registry::trailer_of(Seq::<EntryV>::empty(), 0) =~= Seq::<char>::empty());
    assert(crate::rewrite::norm_sp(ser_toks(tokens_of(css), 0)) + Seq::<char>::empty() =~= crate::rewrite::norm_sp(
        ser_toks(tokens_of(css), 0),
    ));
}

} // verus!
