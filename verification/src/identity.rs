//! Random identities.
use vstd::prelude::*;

verus! {

/// A lower-case hexadecimal digit.
pub open spec fn is_hex_digit(c: char) -> bool {
    '0' <= c <= '9' || 'a' <= c <= 'f'
}

/// A random identity as text: groups of 8, 4, 4, 4 and 12 hexadecimal digits with hyphens
/// between them, where the third group begins with `4` and the fourth with `8`, `9`, `a` or `b`.
pub open spec fn is_random_id(text: Seq<char>) -> bool {
    &&& text.len() == 36
    &&& forall|i: int|
        #![trigger text[i]]
        0 <= i < 36 ==> if i == 8 || i == 13 || i == 18 || i == 23 {
            text[i] == '-'
        } else {
            is_hex_digit(text[i])
        }
    &&& text[14] == '4'
    &&& text[19] == '8' || text[19] == '9' || text[19] == 'a' || text[19] == 'b'
}

/// `uuid::Uuid::new_v4` and its `to_string`: a version 4 UUID in lower case with hyphens. Which
/// one it is depends on chance, so nothing else is stated.
#[verifier::external_body]
pub(crate) fn random_id() -> (id: String)
    ensures
        is_random_id(id@),
{
    uuid::Uuid::new_v4().to_string()
}

} // verus!
