use css_embed::{
    embed_css, format_ident, format_quoted_string, hash_url, is_image_url_prop, Env, FetchEntry,
    Resolution, ResolvedAsset,
};

const EMPTY_IMAGE: &str = "data:image/png;base64,iVBORw0KGgoAAAANSUhEUgAAAAEAAAABCAQAAAC1HAwCAAAAC0lEQVR42mNkYAAAAAYAAjCB0C8AAAAASUVORK5CYII=";

fn plain_env() -> Env {
    Env { entries: Vec::new(), no_fonts: false, no_images: false, dedup_assets: false }
}

fn entry(
    base: &str,
    reference: &str,
    abs: &str,
    scheme: &str,
    asset: Option<(&[u8], &str, &str)>,
) -> FetchEntry {
    FetchEntry {
        base: base.to_string(),
        reference: reference.to_string(),
        resolution: Resolution {
            abs_url: abs.to_string(),
            scheme: scheme.to_string(),
            fragment: None,
            asset: asset.map(|(bytes, final_url, media)| ResolvedAsset {
                bytes: bytes.to_vec(),
                final_url: final_url.to_string(),
                media_type: media.to_string(),
                charset: String::new(),
            }),
        },
    }
}

#[test]
fn hash_url_is_pure_and_hex() {
    let a = hash_url("https://example.com/a.png".to_string());
    let b = hash_url("https://example.com/a.png".to_string());
    assert_eq!(a, b);
    assert_eq!(a.len(), 64);
    assert_eq!(
        hash_url("abc".to_string()),
        "ba7816bf8f01cfea414140de5dae2223b00361a396177a9cb410ff61f20015ad"
    );
}

#[test]
fn image_prop_classification() {
    assert!(is_image_url_prop("background"));
    assert!(is_image_url_prop("BACKGROUND-IMAGE"));
    assert!(is_image_url_prop("Cursor"));
    assert!(is_image_url_prop("additive-symbols"));
    assert!(!is_image_url_prop("color"));
    assert!(!is_image_url_prop("backgrounds"));
    assert!(!is_image_url_prop(""));
}

#[test]
fn ident_and_string_serialization() {
    assert_eq!(format_ident("div"), "div");
    assert_eq!(format_ident("1a"), "\\31 a");
    assert_eq!(format_ident("1"), "\\31");
    assert_eq!(format_quoted_string("x"), "\"x\"");
    assert_eq!(format_quoted_string("a\"b"), "\"a\\\"b\"");
}

#[test]
fn no_references_is_identity() {
    let env = plain_env();
    let css = "body{color:#fff;background-color:#000}";
    assert_eq!(embed_css(&env, "https://example.com/a.css", css), css);
    let css2 = "a{width:50%;margin:+1.5px}/*keep*/ .c[x~=\"y\"]{transform:rotate(7deg)}";
    assert_eq!(embed_css(&env, "https://example.com/a.css", css2), css2);
}

#[test]
fn fragment_only_url_is_kept() {
    let env = plain_env();
    let css = "a{mask:url(#frag)}";
    assert_eq!(embed_css(&env, "https://example.com/a.css", css), css);
}

#[test]
fn empty_references_pass_through() {
    let env = plain_env();
    assert_eq!(embed_css(&env, "https://e.com/a.css", "a{background:url()}"), "a{background:url()}");
    assert_eq!(embed_css(&env, "https://e.com/a.css", "@import \"\";"), "@import '';");
}

#[test]
fn unretrievable_web_reference_is_preserved() {
    let base = "https://example.com/index.css";
    let env = Env {
        entries: vec![
            entry(base, "missing.png", "https://example.com/missing.png", "https", None),
            entry(base, "gone.css", "https://example.com/gone.css", "https", None),
        ],
        no_fonts: false,
        no_images: false,
        dedup_assets: false,
    };
    let out = embed_css(&env, base, "a{background:url(missing.png)}");
    assert_eq!(out, "a{background:url(\"https://example.com/missing.png\")}");
    let out2 = embed_css(&env, base, "@import \"gone.css\";");
    assert_eq!(out2, "@import \"https://example.com/gone.css\";");
}

#[test]
fn unretrievable_non_web_reference_is_dropped() {
    let base = "file:///index.css";
    let env = Env {
        entries: vec![entry(base, "x.png", "file:///x.png", "file", None)],
        no_fonts: false,
        no_images: false,
        dedup_assets: false,
    };
    let out = embed_css(&env, base, "a{background:url(x.png)}");
    assert_eq!(out, "a{background:url()}");
    let out2 = embed_css(&env, base, "@import \"x.png\";");
    assert_eq!(out2, "@import ;");
}

#[test]
fn unknown_reference_acts_as_non_web_failure() {
    let env = plain_env();
    let out = embed_css(&env, "https://e.com/a.css", "a{background:url(nowhere.png)}");
    assert_eq!(out, "a{background:url()}");
}

#[test]
fn no_images_substitutes_placeholder() {
    let base = "https://example.com/a.css";
    // The resolver could even answer: the placeholder must win without a fetch.
    let env = Env {
        entries: vec![entry(
            base,
            "pic.png",
            "https://example.com/pic.png",
            "https",
            Some((b"PNGDATA", "https://example.com/pic.png", "image/png")),
        )],
        no_fonts: false,
        no_images: true,
        dedup_assets: false,
    };
    let out = embed_css(&env, base, "a{background:url(pic.png)}b{background:url('pic.png')}");
    let expected_ref = format!("url(\"{}\")", EMPTY_IMAGE);
    assert_eq!(out.matches(&expected_ref).count(), 2);
    assert!(!out.contains("UE5HREFUQQ=="));
}

#[test]
fn no_fonts_drops_font_face_blocks() {
    let env = Env { entries: Vec::new(), no_fonts: true, no_images: false, dedup_assets: false };
    let out = embed_css(&env, "https://e.com/a.css", "@font-face{src:url(f.woff2)}p{color:#000}");
    assert_eq!(out, "p{color:#000}");
    let keep = Env { entries: Vec::new(), no_fonts: false, no_images: false, dedup_assets: false };
    let kept = embed_css(&keep, "https://e.com/a.css", "@font-face{src:url()}p{color:#000}");
    assert_eq!(kept, "@font-face{src:url()}p{color:#000}");
}

#[test]
fn import_three_forms_agree() {
    let base = "https://example.com/index.css";
    let inner_css = b"body{background-color:#000;color:#fff}";
    let env = Env {
        entries: vec![entry(
            base,
            "style.css",
            "https://example.com/style.css",
            "https",
            Some((inner_css, "https://example.com/style.css", "text/css")),
        )],
        no_fonts: false,
        no_images: false,
        dedup_assets: false,
    };
    let payload = "data:text/css;base64,Ym9keXtiYWNrZ3JvdW5kLWNvbG9yOiMwMDA7Y29sb3I6I2ZmZn0=";
    let o1 = embed_css(&env, base, "@import \"style.css\";");
    let o2 = embed_css(&env, base, "@import url(\"style.css\");");
    let o3 = embed_css(&env, base, "@import url(style.css);");
    assert_eq!(o1, format!("@import \"{}\";", payload));
    assert_eq!(o2, format!("@import url(\"{}\");", payload));
    assert_eq!(o2, o3);
}

#[test]
fn nested_import_embeds_recursively() {
    let base = "https://example.com/top.css";
    let mid_url = "https://example.com/mid.css";
    let env = Env {
        entries: vec![
            entry(base, "mid.css", mid_url, "https", Some((b"@import 'leaf.css';", mid_url, "text/css"))),
            entry(
                mid_url,
                "leaf.css",
                "https://example.com/leaf.css",
                "https",
                Some((b"i{color:#000}", "https://example.com/leaf.css", "text/css")),
            ),
        ],
        no_fonts: false,
        no_images: false,
        dedup_assets: false,
    };
    let out = embed_css(&env, base, "@import 'mid.css';");
    // The leaf's embedding is inlined inside the middle sheet's data URL.
    let leaf_payload = "data:text/css;base64,aXtjb2xvcjojMDAwfQ==";
    let mid_plain = format!("@import \"{}\";", leaf_payload);
    assert!(out.starts_with("@import \"data:text/css;base64,"));
    let b64 = out
        .strip_prefix("@import \"data:text/css;base64,")
        .and_then(|s| s.strip_suffix("\";"))
        .unwrap();
    assert_eq!(decode_b64(b64), mid_plain.as_bytes());
}

fn decode_b64(s: &str) -> Vec<u8> {
    let val = |c: u8| -> u8 {
        match c {
            b'A'..=b'Z' => c - b'A',
            b'a'..=b'z' => c - b'a' + 26,
            b'0'..=b'9' => c - b'0' + 52,
            b'+' => 62,
            b'/' => 63,
            _ => panic!("bad digit"),
        }
    };
    let bytes: Vec<u8> = s.bytes().filter(|&c| c != b'=').collect();
    let mut out = Vec::new();
    for chunk in bytes.chunks(4) {
        let mut acc: u32 = 0;
        for &c in chunk {
            acc = (acc << 6) | val(c) as u32;
        }
        let bits = 6 * chunk.len();
        let n = bits / 8;
        let acc = acc << (24 - bits);
        let all = [(acc >> 16) as u8, (acc >> 8) as u8, acc as u8];
        out.extend_from_slice(&all[..n]);
    }
    out
}

#[test]
fn dedup_four_references_one_trailer() {
    let base = "https://example.com/index.css";
    let final_url = "https://example.com/colors.png";
    let mut entries = Vec::new();
    for r in ["colors.png", "./colors.png"] {
        entries.push(entry(base, r, final_url, "https", Some((b"PNGDATA", final_url, "image/png"))));
    }
    let env = Env { entries, no_fonts: false, no_images: false, dedup_assets: true };
    let css = "a{background-image:url(colors.png)}b{background:url(colors.png)}\
               c{background-image:url(\"./colors.png\")}d{background:url('./colors.png')}";
    let out = embed_css(&env, base, css);
    let digest = hash_url(final_url.to_string());
    assert_eq!(digest, "a3de60ee6373aa88ab9470ad910db8b34c66b03d9f315db7c8b9fb8469b43500");
    let var_ref = format!("var(--img-{})", digest);
    assert_eq!(out.matches(var_ref.as_str()).count(), 4);
    assert_eq!(out.matches("@property").count(), 1);
    let trailer = format!(
        "@property --img-{} {{inherits: false; syntax: \"<url>\"; initial-value: url(\"data:image/png;base64,UE5HREFUQQ==\");}}",
        digest
    );
    assert!(out.ends_with(trailer.as_str()));
}

#[test]
fn dedup_off_inlines_each_occurrence() {
    let base = "https://example.com/index.css";
    let final_url = "https://example.com/colors.png";
    let env = Env {
        entries: vec![entry(base, "colors.png", final_url, "https", Some((b"PNGDATA", final_url, "image/png")))],
        no_fonts: false,
        no_images: false,
        dedup_assets: false,
    };
    let out = embed_css(&env, base, "a{background:url(colors.png)}b{background:url(colors.png)}");
    assert_eq!(out.matches("url(\"data:image/png;base64,UE5HREFUQQ==\")").count(), 2);
    assert!(!out.contains("@property"));
}

#[test]
fn non_image_property_is_not_deduplicated() {
    let base = "https://example.com/index.css";
    let final_url = "https://example.com/colors.png";
    let env = Env {
        entries: vec![entry(base, "colors.png", final_url, "https", Some((b"PNGDATA", final_url, "image/png")))],
        no_fonts: false,
        no_images: false,
        dedup_assets: true,
    };
    let out = embed_css(&env, base, "a{width:url(colors.png)}");
    assert!(out.contains("url(\"data:image/png;base64,UE5HREFUQQ==\")"));
    assert!(!out.contains("var(--"));
}

#[test]
fn whitespace_only_stylesheet_collapses() {
    let env = plain_env();
    assert_eq!(embed_css(&env, "https://e.com/a.css", "   \n\t"), "");
    assert_eq!(embed_css(&env, "https://e.com/a.css", ""), "");
}

#[test]
fn nested_at_rules_pass_through() {
    let env = plain_env();
    let css = "@media screen and (min-width: 50px){a{color:#000}}";
    assert_eq!(embed_css(&env, "https://e.com/a.css", css), css);
}

#[test]
fn malformed_string_is_dropped_and_stream_continues() {
    let env = plain_env();
    let out = embed_css(&env, "https://e.com/a.css", "a{content:\"oops\nb{color:#000}");
    assert!(out.contains("b{color:#000}"));
    assert!(!out.contains("oops"));
}

#[test]
fn uppercase_url_function_wraps_without_embedding() {
    let base = "https://example.com/a.css";
    let env = Env {
        entries: vec![entry(
            base,
            "x.png",
            "https://example.com/x.png",
            "https",
            Some((b"PNGDATA", "https://example.com/x.png", "image/png")),
        )],
        no_fonts: false,
        no_images: false,
        dedup_assets: false,
    };
    // The function name is matched case-insensitively, but the string inside
    // is treated as a reference only under the exact function name "url".
    let out = embed_css(&env, base, "a{background:URL('x.png')}");
    assert_eq!(out, "a{background:url(\"x.png\")}");
}

#[test]
fn media_query_after_import_target_is_kept() {
    let base = "https://example.com/index.css";
    let env = Env {
        entries: vec![entry(
            base,
            "s.css",
            "https://example.com/s.css",
            "https",
            Some((b"i{color:#000}", "https://example.com/s.css", "text/css")),
        )],
        no_fonts: false,
        no_images: false,
        dedup_assets: false,
    };
    let out = embed_css(&env, base, "@import \"s.css\" screen;");
    assert_eq!(out, "@import \"data:text/css;base64,aXtjb2xvcjojMDAwfQ==\" screen;");
}

#[test]
fn no_fonts_skip_leaves_following_rules_intact() {
    let env = Env { entries: Vec::new(), no_fonts: true, no_images: false, dedup_assets: false };
    // The rule after the discarded block starts with a bracket: it must stay.
    let out = embed_css(
        &env,
        "https://e.com/a.css",
        "@font-face{src:url(f.woff2)}[hidden]{display:none}",
    );
    assert_eq!(out, "[hidden]{display:none}");
}

#[test]
fn quoted_fragment_inside_url_is_kept() {
    let env = plain_env();
    let out = embed_css(&env, "https://e.com/a.css", "a{mask:url(\"#frag\")}");
    assert_eq!(out, "a{mask:url(\"#frag\")}");
}

#[test]
fn data_url_references_pass_through() {
    let env = plain_env();
    let css = "a{background:url(\"data:image/png;base64,UE5HREFUQQ==\")}";
    assert_eq!(embed_css(&env, "https://e.com/a.css", css), css);
    let bare = embed_css(&env, "https://e.com/a.css", "a{background:url(data:image/png;base64,UE5HREFUQQ==)}");
    assert_eq!(bare, css);
    let imp = "@import \"data:text/css;base64,aXtjb2xvcjojMDAwfQ==\";";
    assert_eq!(embed_css(&env, "https://e.com/a.css", imp), imp);
}

#[test]
fn re_embedding_output_is_a_no_op() {
    let base = "https://example.com/index.css";
    let final_url = "https://example.com/colors.png";
    let env = Env {
        entries: vec![
            entry(base, "colors.png", final_url, "https", Some((b"PNGDATA", final_url, "image/png"))),
            entry(base, "style.css", "https://example.com/style.css", "https",
                  Some((b"i{color:#000}", "https://example.com/style.css", "text/css"))),
        ],
        no_fonts: false,
        no_images: false,
        dedup_assets: true,
    };
    let css = "@import \"style.css\";a{background:url(colors.png)}b{background-image:url(colors.png)}";
    let once = embed_css(&env, base, css);
    // No table rows are needed the second time: every reference is inline.
    let twice = embed_css(&plain_env(), base, &once);
    assert_eq!(twice, once);
}
