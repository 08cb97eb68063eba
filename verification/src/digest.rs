use vstd::prelude::*;
use sha2::Digest;

verus! {

/// The 64 lowercase hex digits of the SHA-256 digest of a text's UTF-8 bytes.
pub uninterp spec fn sha256_hex_of(s: Seq<char>) -> Seq<char>;

/// A lowercase hexadecimal digit.
pub open spec fn is_lower_hex(c: char) -> bool {
    let u = c as u32;
    (48 <= u && u <= 57) || (97 <= u && u <= 102)
}

/// Relies on sha2's Sha256 digest, rendered per byte as two lowercase hex
/// digits: 64 in all, a function of the input bytes alone.
#[verifier::external_body]
fn sha256_hex(url: &str) -> (r: String)
    ensures
        r@ == sha256_hex_of(url@),
        r@.len() == 64,
        forall|i: int| 0 <= i < r@.len() ==> is_lower_hex(#[trigger] r@[i]),
{
    sha2::Sha256::digest(url.as_bytes()).iter().map(|b| format!("{:02x}", b)).collect()
}

/// Hashes a URL's text to the hex digest that names its deduplicated asset.
pub fn hash_url(url: String) -> (r: String)
    ensures
        r@ == sha256_hex_of(url@),
        r@.len() == 64,
        forall|i: int| 0 <= i < r@.len() ==> is_lower_hex(#[trigger] r@[i]),
{
    sha256_hex(url.as_str())
}

} // verus!
