use vstd::prelude::*;
use crate::text::{eq_ignore_case, lower_seq};

verus! {

/// Case-insensitive equality of two property names.
pub open spec fn ieq(a: Seq<char>, b: Seq<char>) -> bool {
    lower_seq(a) == lower_seq(b)
}

/// Whether a property name belongs to the fixed registry of properties whose
/// URL references carry images: the background, border-image, mask, cursor
/// and list-style families, content, and the counter-style descriptors.
pub open spec fn is_image_prop_sp(s: Seq<char>) -> bool {
    ieq(s, "background"@) || ieq(s, "background-image"@) || ieq(s, "border-image"@) || ieq(
        s,
        "border-image-source"@,
    ) || ieq(s, "content"@) || ieq(s, "cursor"@) || ieq(s, "list-style"@) || ieq(
        s,
        "list-style-image"@,
    ) || ieq(s, "mask"@) || ieq(s, "mask-image"@) || ieq(s, "additive-symbols"@) || ieq(
        s,
        "negative"@,
    ) || ieq(s, "pad"@) || ieq(s, "prefix"@) || ieq(s, "suffix"@) || ieq(s, "symbols"@)
}

/// Decides, case-insensitively, whether a property name can carry an image
/// URL reference.
pub fn is_image_url_prop(prop_name: &str) -> (r: bool)
    ensures
        r == is_image_prop_sp(prop_name@),
{
    eq_ignore_case(prop_name, "background") || eq_ignore_case(prop_name, "background-image")
        || eq_ignore_case(prop_name, "border-image") || eq_ignore_case(
        prop_name,
        "border-image-source",
    ) || eq_ignore_case(prop_name, "content") || eq_ignore_case(prop_name, "cursor")
        || eq_ignore_case(prop_name, "list-style") || eq_ignore_case(prop_name, "list-style-image")
        || eq_ignore_case(prop_name, "mask") || eq_ignore_case(prop_name, "mask-image")
        || eq_ignore_case(prop_name, "additive-symbols") || eq_ignore_case(prop_name, "negative")
        || eq_ignore_case(prop_name, "pad") || eq_ignore_case(prop_name, "prefix")
        || eq_ignore_case(prop_name, "suffix") || eq_ignore_case(prop_name, "symbols")
}

} // verus!
