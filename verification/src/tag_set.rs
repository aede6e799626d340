//! Tag sets: the small integer labels a traverser carries, kept in a
//! `bit_set::BitSet`.
//!
//! The bit set is opaque to the verifier. Its contents are named by
//! [`tags_of`], and the few operations the traversal logic needs are stated
//! over that name.

use bit_set::BitSet;
use vstd::prelude::*;

verus! {

#[verifier::external_type_specification]
#[verifier::external_body]
#[verifier::reject_recursive_types(B)]
pub struct ExBitSet<B>(bit_set::BitSet<B>);

/// The tags that a bit set holds.
pub uninterp spec fn tags_of(s: BitSet) -> Set<usize>;

/// Whether `v` lists its items in strictly ascending order.
pub open spec fn strictly_ascending(v: Seq<usize>) -> bool {
    forall|i: int, j: int| 0 <= i < j < v.len() ==> v[i] < v[j]
}

/// Whether `v` lists exactly the members of `s`, each once, smallest first.
pub open spec fn lists_in_order(v: Seq<usize>, s: Set<usize>) -> bool {
    &&& strictly_ascending(v)
    &&& forall|t: usize| v.contains(t) <==> s.contains(t)
}

/// `BitSet::new`: a set that holds no tag.
#[verifier::external_body]
pub(crate) fn empty_tags() -> (r: BitSet)
    ensures
        tags_of(r) == Set::<usize>::empty(),
{
    BitSet::new()
}

/// `BitSet::contains`: whether `tag` is a member. Never panics: the index is
/// compared with the length before the bit is read.
#[verifier::external_body]
pub(crate) fn tags_contain(s: &BitSet, tag: usize) -> (r: bool)
    ensures
        r == tags_of(*s).contains(tag),
{
    s.contains(tag)
}

/// `BitSet::clone`: a separate set with the same members.
#[verifier::external_body]
pub(crate) fn copy_tags(s: &BitSet) -> (r: BitSet)
    ensures
        tags_of(r) == tags_of(*s),
{
    s.clone()
}

/// `BitSet::iter`, collected: the members, each once, in ascending order. The
/// iterator walks the blocks from the lowest and, inside a block, the bits
/// from the least significant.
#[verifier::external_body]
pub(crate) fn tags_in_order(s: &BitSet) -> (r: Vec<usize>)
    ensures
        lists_in_order(r@, tags_of(*s)),
{
    s.iter().collect()
}

/// `BitSet::union_with`: adds to `s` every member of `other` and nothing
/// else.
#[verifier::external_body]
pub(crate) fn unite_tags(s: &mut BitSet, other: &BitSet)
    ensures
        tags_of(*final(s)) == tags_of(*old(s)).union(tags_of(*other)),
{
    s.union_with(other);
}

/// `BitSet::difference_with`: removes from `s` every member of `other` and
/// nothing else.
#[verifier::external_body]
pub(crate) fn subtract_tags(s: &mut BitSet, other: &BitSet)
    ensures
        tags_of(*final(s)) == tags_of(*old(s)).difference(tags_of(*other)),
{
    s.difference_with(other);
}

} // verus!
