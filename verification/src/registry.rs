use vstd::prelude::*;
use vstd::string::StringExecFns;

verus! {

/// A deduplicated asset: the generated custom-property name and the quoted
/// inline data URL it stands for.
pub struct CssPropAsset {
    pub prop_name: String,
    pub data_url: String,
}

/// One registry row: the final URL that keys the asset, and the asset.
pub struct RegEntry {
    pub url: String,
    pub asset: CssPropAsset,
}

pub struct EntryV {
    pub url: Seq<char>,
    pub name: Seq<char>,
    pub data: Seq<char>,
}

impl View for RegEntry {
    type V = EntryV;

    open spec fn view(&self) -> EntryV {
        EntryV { url: self.url@, name: self.asset.prop_name@, data: self.asset.data_url@ }
    }
}

pub open spec fn reg_v(s: Seq<RegEntry>) -> Seq<EntryV> {
    Seq::new(s.len(), |i: int| s[i]@)
}

/// The first registry row from position `i` on keyed by a final URL.
pub open spec fn reg_find_from(reg: Seq<EntryV>, url: Seq<char>, i: int) -> Option<EntryV>
    decreases reg.len() - i,
{
    if i < 0 || i >= reg.len() {
        Option::None
    } else if reg[i].url == url {
        Option::Some(reg[i])
    } else {
        reg_find_from(reg, url, i + 1)
    }
}

/// The registry row keyed by a final URL, if any.
pub open spec fn reg_find(reg: Seq<EntryV>, url: Seq<char>) -> Option<EntryV> {
    reg_find_from(reg, url, 0)
}

/// Looks a final URL up in the registry; the first matching row wins.
pub fn reg_lookup(reg: &Vec<RegEntry>, url: &str) -> (r: Option<usize>)
    ensures
        match r {
            Option::Some(j) => j < reg@.len() && reg_find(reg_v(reg@), url@) == Option::Some(
                reg@[j as int]@,
            ),
            Option::None => reg_find(reg_v(reg@), url@) is None,
        },
{
    let n = reg.len();
    let mut i: usize = 0;
    while i < n
        invariant
            n == reg@.len(),
            0 <= i <= n,
            reg_find(reg_v(reg@), url@) == reg_find_from(reg_v(reg@), url@, i as int),
        decreases n - i,
    {
        if crate::text::str_eq(reg[i].url.as_str(), url) {
            return Option::Some(i);
        }
        i = i + 1;
    }
    Option::None
}

/// The trailer text for the registry rows from position `i` on: one custom
/// property declaration per deduplicated asset, in insertion order.
pub open spec fn trailer_of(reg: Seq<EntryV>, i: int) -> Seq<char>
    decreases reg.len() - i,
{
    if i < 0 || i >= reg.len() {
        Seq::empty()
    } else {
        "@property --"@ + reg[i].name + " {inherits: false; syntax: \"<url>\"; initial-value: url("@
            + reg[i].data + ");}"@ + trailer_of(reg, i + 1)
    }
}

fn trailer_from(reg: &Vec<RegEntry>, i: usize) -> (r: String)
    requires
        i <= reg@.len(),
    ensures
        r@ == trailer_of(reg_v(reg@), i as int),
    decreases reg@.len() - i,
{
    if i == reg.len() {
        String::new()
    } else {
        let mut r = String::from_str("@property --");
        r.append(reg[i].asset.prop_name.as_str());
        r.append(" {inherits: false; syntax: \"<url>\"; initial-value: url(");
        r.append(reg[i].asset.data_url.as_str());
        r.append(");}");
        let rest = trailer_from(reg, i + 1);
        let out = r.concat(rest.as_str());
        proof {
            assert(out@ =~= trailer_of(reg_v(reg@), i as int));
        }
        out
    }
}

/// Appends one `@property` declaration per registry row, in insertion order.
pub fn emit_trailer(reg: &Vec<RegEntry>) -> (r: String)
    ensures
        r@ == trailer_of(reg_v(reg@), 0),
{
    trailer_from(reg, 0)
}

} // verus!
