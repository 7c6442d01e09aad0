//! Fresh identifiers.

use vstd::prelude::*;

verus! {

pub open spec fn is_lower_hex(c: char) -> bool {
    '0' <= c <= '9' || 'a' <= c <= 'f'
}

/// The hyphenated form of a random UUID: groups of 8, 4, 4, 4 and 12 lower-case
/// hexadecimal digits, the third of which starts with the version, 4, and the
/// fourth with the variant, one of 8, 9, a and b.
pub open spec fn is_random_uuid(s: Seq<char>) -> bool {
    &&& s.len() == 36
    &&& s[8] == '-' && s[13] == '-' && s[18] == '-' && s[23] == '-'
    &&& s[14] == '4'
    &&& s[19] == '8' || s[19] == '9' || s[19] == 'a' || s[19] == 'b'
    &&& forall|i: int|
        0 <= i < 36 && i != 8 && i != 13 && i != 18 && i != 23 ==> is_lower_hex(#[trigger] s[i])
}

/// `Uuid::new_v4`, written out with its `Display` form. The digits are random;
/// what is claimed is the shape of the text, version and variant among it.
#[verifier::external_body]
pub(crate) fn random_uuid() -> (r: String)
    ensures
        is_random_uuid(r@),
{
    uuid::Uuid::new_v4().to_string()
}

/// An identifier for a new row.
pub fn new_id() -> (r: String)
    ensures
        is_random_uuid(r@),
{
    random_uuid()
}

/// Every text of the list has the shape of a random UUID.
pub open spec fn are_random_uuids(list: Seq<String>) -> bool {
    forall|i: int| 0 <= i < list.len() ==> is_random_uuid(#[trigger] list[i]@)
}

/// Identifiers for that many new rows.
pub fn new_ids(n: usize) -> (r: Vec<String>)
    ensures
        r@.len() == n,
        are_random_uuids(r@),
{
    let mut list: Vec<String> = Vec::new();
    for i in 0..n
        invariant
            list@.len() == i,
            are_random_uuids(list@),
    {
        list.push(new_id());
    }
    list
}

} // verus!
