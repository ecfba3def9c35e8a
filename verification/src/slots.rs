//! The slot layout of the generic argument and result buffers.
//!
//! A buffer is a flat run of 64-bit slots. A scalar takes one slot, a vector
//! takes two consecutive slots, and values follow each other without gaps.
//! Every offset in the crate comes from the functions of this module.

use vstd::prelude::*;
use crate::types::Type;

verus! {

/// Number of slots that a value of kind `ty` occupies.
pub open spec fn slot_width(ty: Type) -> nat {
    if ty == Type::V128 {
        2
    } else {
        1
    }
}

/// Number of slots that a run of values of these kinds occupies: the sum of
/// their widths.
pub open spec fn slot_count(types: Seq<Type>) -> nat
    decreases types.len(),
{
    if types.len() == 0 {
        0
    } else {
        slot_count(types.drop_last()) + slot_width(types.last())
    }
}

/// The slot at which the value with index `i` starts.
pub open spec fn slot_offset(types: Seq<Type>, i: int) -> nat {
    slot_count(types.take(i))
}

/// Number of vectors among `types`.
pub open spec fn vector_count(types: Seq<Type>) -> nat {
    types.filter(|t: Type| t == Type::V128).len()
}

/// Number of slots that a value of kind `ty` occupies.
pub fn slots_of(ty: Type) -> (n: u32)
    ensures
        n == slot_width(ty),
{
    match ty {
        Type::V128 => 2,
        _ => 1,
    }
}

/// Offsets grow with the index: a later value starts where the earlier one
/// ends, or further on.
pub proof fn lemma_slot_offset_step(types: Seq<Type>, i: int)
    requires
        0 <= i < types.len(),
    ensures
        slot_offset(types, i + 1) == slot_offset(types, i) + slot_width(types[i]),
{
    assert(types.take(i + 1).drop_last() =~= types.take(i));
    assert(types.take(i + 1).last() == types[i]);
}

/// The offset of the index one past the end is the total slot count.
pub proof fn lemma_slot_offset_end(types: Seq<Type>)
    ensures
        slot_offset(types, types.len() as int) == slot_count(types),
        slot_offset(types, 0) == 0,
{
    assert(types.take(types.len() as int) =~= types);
    assert(types.take(0).len() == 0);
}

/// A prefix never takes more slots than the whole.
pub proof fn lemma_slot_offset_bounded(types: Seq<Type>, i: int)
    requires
        0 <= i <= types.len(),
    ensures
        slot_offset(types, i) <= slot_count(types),
    decreases types.len() - i,
{
    if i == types.len() {
        lemma_slot_offset_end(types);
    } else {
        lemma_slot_offset_step(types, i);
        lemma_slot_offset_bounded(types, i + 1);
    }
}

/// The slot-width law: a run of values takes one slot for each value and one
/// more for each vector among them.
pub proof fn lemma_slot_count_is_len_plus_vectors(types: Seq<Type>)
    ensures
        slot_count(types) == types.len() + vector_count(types),
    decreases types.len(),
{
    reveal(Seq::filter);
    if types.len() > 0 {
        lemma_slot_count_is_len_plus_vectors(types.drop_last());
    }
}

/// Computes the starting slot of every value of a run. This is the one place
/// where offsets are counted: whoever needs the place of a value gets it here.
pub fn compute_slot_offsets(types: &Vec<Type>) -> (offsets: Vec<u32>)
    requires
        slot_count(types@) <= u32::MAX,
    ensures
        offsets@.len() == types@.len(),
        forall|i: int| 0 <= i < types@.len() ==> offsets@[i] == slot_offset(types@, i),
{
    let mut offsets: Vec<u32> = Vec::new();
    let mut slot: u32 = 0;
    let mut i: usize = 0;
    proof {
        lemma_slot_offset_end(types@);
    }
    while i < types.len()
        invariant
            0 <= i <= types@.len(),
            slot_count(types@) <= u32::MAX,
            slot == slot_offset(types@, i as int),
            offsets@.len() == i,
            forall|j: int| 0 <= j < i ==> offsets@[j] == slot_offset(types@, j),
        decreases types@.len() - i,
    {
        proof {
            lemma_slot_offset_step(types@, i as int);
            lemma_slot_offset_bounded(types@, i + 1);
        }
        offsets.push(slot);
        slot = slot + slots_of(types[i]);
        i = i + 1;
    }
    offsets
}

/// A run of values takes at least one and at most two slots per value.
pub proof fn lemma_slot_count_bounds(types: Seq<Type>)
    ensures
        types.len() <= slot_count(types) <= 2 * types.len(),
    decreases types.len(),
{
    if types.len() > 0 {
        lemma_slot_count_bounds(types.drop_last());
    }
}

/// Decides whether a run of values takes no more than `limit` slots.
pub fn fits_within(types: &Vec<Type>, limit: u32) -> (fits: bool)
    ensures
        fits == (slot_count(types@) <= limit),
{
    let mut total: u32 = 0;
    let mut i: usize = 0;
    proof {
        lemma_slot_offset_end(types@);
    }
    while i < types.len()
        invariant
            0 <= i <= types@.len(),
            total == slot_offset(types@, i as int),
            total <= limit,
        decreases types@.len() - i,
    {
        let width = slots_of(types[i]);
        proof {
            lemma_slot_offset_step(types@, i as int);
            lemma_slot_offset_bounded(types@, i + 1);
        }
        if width > limit - total {
            return false;
        }
        total = total + width;
        i = i + 1;
    }
    true
}

} // verus!
