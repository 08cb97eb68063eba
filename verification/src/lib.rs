//! A verified stylesheet embedder: a recursive token-stream rewriter that
//! replaces every externally-referenced resource a stylesheet contains,
//! images, fonts and imported stylesheets, with a self-contained inline
//! representation, while reproducing every other byte of the syntax.
//!
//! The tokenizer and the two serializers come from cssparser, and the digest
//! from sha2, each behind a small trusted boundary; the resolver's answers
//! are handed in as a table (`fetch::Env`), so the whole rewrite is a pure,
//! fully specified function of the stylesheet, the base URL, the policy
//! switches and that table.

pub mod classify;
pub mod digest;
pub mod encode;
pub mod fetch;
pub mod laws;
pub mod registry;
pub mod rewrite;
pub mod serialize;
pub mod text;
pub mod tokenize;
pub mod tokens;

pub use classify::is_image_url_prop;
pub use digest::hash_url;
pub use fetch::{Env, FetchEntry, ResolvedAsset, Resolution};
pub use registry::{CssPropAsset, RegEntry};
pub use rewrite::{embed_at, embed_css, empty_image_data_url, process_css, Ctx};
pub use serialize::{format_ident, format_quoted_string};
pub use tokens::{BlockKind, CssToken};
