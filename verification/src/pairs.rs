//! Grouping bytes two by two.

use vstd::prelude::*;
use itertools::Itertools;

verus! {

/// The consecutive, non-overlapping pairs of `bytes`, in order. A last byte
/// without a partner belongs to no pair.
pub open spec fn pairs_of(bytes: Seq<u8>) -> Seq<(u8, u8)> {
    Seq::new((bytes.len() / 2) as nat, |i: int| (bytes[2 * i], bytes[2 * i + 1]))
}

/// Calls `Itertools::tuples` on the bytes, asking for tuples of two.
///
/// Trusted: that the iterator it returns yields the first and second byte,
/// then the third and fourth, and so on, and stops as soon as fewer than two
/// bytes are left.
#[verifier::external_body]
pub(crate) fn byte_pairs(bytes: &[u8]) -> (pairs: Vec<(u8, u8)>)
    ensures
        pairs@ == pairs_of(bytes@),
{
    bytes.iter().copied().tuples::<(u8, u8)>().collect()
}

} // verus!
