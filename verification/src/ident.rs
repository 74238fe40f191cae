use vstd::prelude::*;

verus! {

/// A lowercase hexadecimal digit.
pub open spec fn is_lower_hex_digit(c: char) -> bool {
    ('0' <= c && c <= '9') || ('a' <= c && c <= 'f')
}

/// The canonical hyphenated rendering of a 128-bit identifier: 36
/// characters, hyphens at positions 8, 13, 18 and 23, and lowercase
/// hexadecimal digits everywhere else.
pub open spec fn is_id_rendering(s: Seq<char>) -> bool {
    &&& s.len() == 36
    &&& s[8] == '-' && s[13] == '-' && s[18] == '-' && s[23] == '-'
    &&& forall|i: int|
        0 <= i < 36 && i != 8 && i != 13 && i != 18 && i != 23 ==> is_lower_hex_digit(
            #[trigger] s[i],
        )
}

/// Relies on uuid::Uuid::new_v4 and the Display rendering of uuid::Uuid:
/// a 128-bit random identifier, rendered in the hyphenated lowercase
/// hexadecimal form. The value is drawn from the operating system's
/// randomness, so nothing is promised beyond the shape of the rendering.
#[verifier::external_body]
pub(crate) fn fresh_id() -> (r: String)
    ensures
        is_id_rendering(r@),
{
    uuid::Uuid::new_v4().to_string()
}

} // verus!
