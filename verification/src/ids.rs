use vstd::prelude::*;

verus! {

/// Whether `c` is a lowercase hexadecimal digit.
pub open spec fn is_lower_hex(c: char) -> bool {
    ('0' <= c && c <= '9') || ('a' <= c && c <= 'f')
}

/// Whether `s` has the shape of a random (version 4) UUID in its hyphenated
/// lowercase form: 36 characters, hyphens at 8, 13, 18 and 23, the version
/// digit `4` at 14, and lowercase hex digits everywhere else.
pub open spec fn is_uuid_v4_text(s: Seq<char>) -> bool {
    &&& s.len() == 36
    &&& s[8] == '-' && s[13] == '-' && s[18] == '-' && s[23] == '-'
    &&& s[14] == '4'
    &&& forall|i: int|
        0 <= i < 36 && i != 8 && i != 13 && i != 18 && i != 23 ==> is_lower_hex(#[trigger] s[i])
}

#[verifier::external_body]
/// A fresh record id: `uuid::Uuid::new_v4()` rendered with `to_string`.
/// The value is random; the claim is only its shape, which the `uuid`
/// source fixes (hyphenated lowercase hex, version digit 4).
pub(crate) fn new_id() -> (id: String)
    ensures
        is_uuid_v4_text(id@),
{
    uuid::Uuid::new_v4().to_string()
}

} // verus!
