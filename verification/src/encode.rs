use vstd::prelude::*;
use vstd::string::{StrSliceExecFns, StringExecFns};

verus! {

pub open spec fn b64_alphabet() -> Seq<char> {
    "ABCDEFGHIJKLMNOPQRSTUVWXYZabcdefghijklmnopqrstuvwxyz0123456789+/"@
}

/// The base64 digit for a 6-bit value.
pub open spec fn b64c(n: int) -> char {
    b64_alphabet()[n]
}

/// A one-character string holding the base64 digit for a 6-bit value.
fn b64_str(n: u8) -> (r: String)
    requires
        n < 64,
    ensures
        r@ =~= seq![b64c(n as int)],
{
    proof {
        reveal_strlit("ABCDEFGHIJKLMNOPQRSTUVWXYZabcdefghijklmnopqrstuvwxyz0123456789+/");
    }
    let r = "ABCDEFGHIJKLMNOPQRSTUVWXYZabcdefghijklmnopqrstuvwxyz0123456789+/".substring_char(
        n as usize,
        n as usize + 1,
    ).to_owned();
    r
}

/// Standard base64 with padding, four digits for every three bytes.
pub open spec fn base64_of(s: Seq<u8>) -> Seq<char>
    decreases s.len(),
{
    if s.len() == 0 {
        Seq::empty()
    } else if s.len() == 1 {
        seq![b64c((s[0] / 4) as int), b64c(((s[0] % 4) * 16) as int), '=', '=']
    } else if s.len() == 2 {
        seq![b64c((s[0] / 4) as int), b64c(((s[0] % 4) * 16 + s[1] / 16) as int), b64c(((s[1] % 16) * 4) as int), '=']
    } else {
        seq![
            b64c((s[0] / 4) as int),
            b64c(((s[0] % 4) * 16 + s[1] / 16) as int),
            b64c(((s[1] % 16) * 4 + s[2] / 64) as int),
            b64c((s[2] % 64) as int),
        ] + base64_of(s.skip(3))
    }
}

/// Encodes the bytes from position `i` on.
fn base64_from(bytes: &Vec<u8>, i: usize) -> (r: String)
    requires
        i <= bytes@.len(),
    ensures
        r@ == base64_of(bytes@.skip(i as int)),
    decreases bytes@.len() - i,
{
    let ghost s = bytes@.skip(i as int);
    let n = bytes.len();
    if i == n {
        proof {
            assert(s =~= Seq::<u8>::empty());
        }
        String::new()
    } else if n - i == 1 {
        let b0 = bytes[i];
        let mut r = b64_str(b0 / 4);
        r.append(b64_str((b0 % 4) * 16).as_str());
        r.append("==");
        proof {
            reveal_strlit("==");
            assert(s[0] == b0);
            assert(r@ =~= base64_of(s));
        }
        r
    } else if n - i == 2 {
        let b0 = bytes[i];
        let b1 = bytes[i + 1];
        let mut r = b64_str(b0 / 4);
        r.append(b64_str((b0 % 4) * 16 + b1 / 16).as_str());
        r.append(b64_str((b1 % 16) * 4).as_str());
        r.append("=");
        proof {
            reveal_strlit("=");
            assert(s[0] == b0 && s[1] == b1);
            assert(r@ =~= base64_of(s));
        }
        r
    } else {
        let b0 = bytes[i];
        let b1 = bytes[i + 1];
        let b2 = bytes[i + 2];
        let mut r = b64_str(b0 / 4);
        r.append(b64_str((b0 % 4) * 16 + b1 / 16).as_str());
        r.append(b64_str((b1 % 16) * 4 + b2 / 64).as_str());
        r.append(b64_str(b2 % 64).as_str());
        let rest = base64_from(bytes, i + 3);
        let out = r.concat(rest.as_str());
        proof {
            assert(s[0] == b0 && s[1] == b1 && s[2] == b2);
            assert(s.skip(3) =~= bytes@.skip(i + 3));
            assert(out@ =~= base64_of(s));
        }
        out
    }
}

/// Encodes a byte vector as base64 text.
pub fn base64_encode(bytes: &Vec<u8>) -> (r: String)
    ensures
        r@ == base64_of(bytes@),
{
    let r = base64_from(bytes, 0);
    proof {
        assert(bytes@.skip(0) =~= bytes@);
    }
    r
}

pub open spec fn opt_frag_view(frag: Option<String>) -> Option<Seq<char>> {
    match frag {
        Option::Some(f) => Option::Some(f@),
        Option::None => Option::None,
    }
}

/// The inline data URL for a resource: its media type, an optional charset
/// parameter, the base64 payload, and an optional fragment.
pub open spec fn data_url_of(
    media: Seq<char>,
    charset: Seq<char>,
    b64: Seq<char>,
    frag: Option<Seq<char>>,
) -> Seq<char> {
    "data:"@ + media + (if charset.len() > 0 {
        ";charset="@ + charset
    } else {
        Seq::empty()
    }) + ";base64,"@ + b64 + (match frag {
        Option::Some(f) => "#"@ + f,
        Option::None => Seq::empty(),
    })
}

/// Builds the inline data URL for a resource's bytes.
pub fn encode_data_url(media: &str, charset: &str, bytes: &Vec<u8>, frag: &Option<String>) -> (r:
    String)
    ensures
        r@ == data_url_of(media@, charset@, base64_of(bytes@), opt_frag_view(*frag)),
{
    let mut r = String::from_str("data:");
    r.append(media);
    if charset.unicode_len() > 0 {
        r.append(";charset=");
        r.append(charset);
    }
    r.append(";base64,");
    let payload = base64_encode(bytes);
    r.append(payload.as_str());
    match frag {
        Option::Some(f) => {
            r.append("#");
            r.append(f.as_str());
        },
        Option::None => {},
    }
    proof {
        assert(r@ =~= data_url_of(media@, charset@, base64_of(bytes@), opt_frag_view(*frag)));
    }
    r
}

} // verus!
