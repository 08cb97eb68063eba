use vstd::prelude::*;

verus! {

/// What a successful resolve-and-fetch of one reference hands back: the
/// resource's bytes, the URL that finally served it, and its media type and
/// charset.
pub struct ResolvedAsset {
    pub bytes: Vec<u8>,
    pub final_url: String,
    pub media_type: String,
    pub charset: String,
}

pub struct AssetV {
    pub bytes: Seq<u8>,
    pub final_url: Seq<char>,
    pub media_type: Seq<char>,
    pub charset: Seq<char>,
}

impl View for ResolvedAsset {
    type V = AssetV;

    open spec fn view(&self) -> AssetV {
        AssetV {
            bytes: self.bytes@,
            final_url: self.final_url@,
            media_type: self.media_type@,
            charset: self.charset@,
        }
    }
}

/// The outcome of resolving one written reference against a base URL: the
/// absolute URL, its scheme, its fragment, and the fetched resource, absent
/// when retrieval failed.
pub struct Resolution {
    pub abs_url: String,
    pub scheme: String,
    pub fragment: Option<String>,
    pub asset: Option<ResolvedAsset>,
}

pub struct ResolutionV {
    pub abs_url: Seq<char>,
    pub scheme: Seq<char>,
    pub fragment: Option<Seq<char>>,
    pub asset: Option<AssetV>,
}

impl View for Resolution {
    type V = ResolutionV;

    open spec fn view(&self) -> ResolutionV {
        ResolutionV {
            abs_url: self.abs_url@,
            scheme: self.scheme@,
            fragment: match self.fragment {
                Option::Some(f) => Option::Some(f@),
                Option::None => Option::None,
            },
            asset: match self.asset {
                Option::Some(a) => Option::Some(a@),
                Option::None => Option::None,
            },
        }
    }
}

/// One row of the resolver's table: what resolving `reference` against `base`
/// leads to.
pub struct FetchEntry {
    pub base: String,
    pub reference: String,
    pub resolution: Resolution,
}

pub struct FetchEntryV {
    pub base: Seq<char>,
    pub reference: Seq<char>,
    pub resolution: ResolutionV,
}

impl View for FetchEntry {
    type V = FetchEntryV;

    open spec fn view(&self) -> FetchEntryV {
        FetchEntryV { base: self.base@, reference: self.reference@, resolution: self.resolution@ }
    }
}

/// The rewriter's surroundings: the resolver's answers as a table, and the
/// three policy switches.
pub struct Env {
    pub entries: Vec<FetchEntry>,
    pub no_fonts: bool,
    pub no_images: bool,
    pub dedup_assets: bool,
}

pub struct EnvV {
    pub entries: Seq<FetchEntryV>,
    pub no_fonts: bool,
    pub no_images: bool,
    pub dedup_assets: bool,
}

impl View for Env {
    type V = EnvV;

    open spec fn view(&self) -> EnvV {
        EnvV {
            entries: Seq::new(self.entries@.len(), |i: int| self.entries@[i]@),
            no_fonts: self.no_fonts,
            no_images: self.no_images,
            dedup_assets: self.dedup_assets,
        }
    }
}

/// The first table row from position `i` on that matches a base and reference.
pub open spec fn fetch_find_from(
    entries: Seq<FetchEntryV>,
    base: Seq<char>,
    refr: Seq<char>,
    i: int,
) -> Option<ResolutionV>
    decreases entries.len() - i,
{
    if i < 0 || i >= entries.len() {
        Option::None
    } else if entries[i].base == base && entries[i].reference == refr {
        Option::Some(entries[i].resolution)
    } else {
        fetch_find_from(entries, base, refr, i + 1)
    }
}

/// The resolver's answer for one written reference under a base URL.
pub open spec fn fetch_find(
    entries: Seq<FetchEntryV>,
    base: Seq<char>,
    refr: Seq<char>,
) -> Option<ResolutionV> {
    fetch_find_from(entries, base, refr, 0)
}

/// Looks a reference up in the resolver's table; the first matching row wins.
pub fn fetch_lookup(env: &Env, base: &str, refr: &str) -> (r: Option<usize>)
    ensures
        match r {
            Option::Some(j) => j < env.entries@.len() && fetch_find(env@.entries, base@, refr@)
                == Option::Some(env.entries@[j as int]@.resolution),
            Option::None => fetch_find(env@.entries, base@, refr@) is None,
        },
{
    let n = env.entries.len();
    let mut i: usize = 0;
    while i < n
        invariant
            n == env.entries@.len(),
            0 <= i <= n,
            fetch_find(env@.entries, base@, refr@) == fetch_find_from(
                env@.entries,
                base@,
                refr@,
                i as int,
            ),
        decreases n - i,
    {
        let e = &env.entries[i];
        if crate::text::str_eq(e.base.as_str(), base) && crate::text::str_eq(
            e.reference.as_str(),
            refr,
        ) {
            return Option::Some(i);
        }
        i = i + 1;
    }
    Option::None
}

/// Whether a scheme is one of the web schemes whose unretrievable references
/// are preserved.
pub open spec fn web_scheme(s: Seq<char>) -> bool {
    s == "http"@ || s == "https"@
}

} // verus!
