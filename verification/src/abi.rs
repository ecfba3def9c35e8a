//! How a callee hands back its results: in registers, or through memory that
//! the caller reserves.

use vstd::prelude::*;
use crate::types::Type;

verus! {

/// Width in bits of a value of kind `ty`.
pub open spec fn bit_width(ty: Type) -> nat {
    match ty {
        Type::I32 | Type::F32 => 32,
        Type::I64 | Type::F64 => 64,
        Type::V128 => 128,
    }
}

/// The widths in bits of a run of kinds, in order.
pub open spec fn bit_widths(types: Seq<Type>) -> Seq<nat> {
    Seq::new(types.len(), |i: int| bit_width(types[i]))
}

/// The width sequences that come back in registers: no value, any single
/// value, and eight fixed shapes of two to four scalars.
pub open spec fn returned_directly(widths: Seq<nat>) -> bool {
    ||| widths.len() == 0
    ||| widths.len() == 1
    ||| widths == seq![32nat, 64nat]
    ||| widths == seq![64nat, 32nat]
    ||| widths == seq![64nat, 64nat]
    ||| widths == seq![32nat, 32nat]
    ||| widths == seq![32nat, 32nat, 32nat]
    ||| widths == seq![32nat, 32nat, 64nat]
    ||| widths == seq![64nat, 32nat, 32nat]
    ||| widths == seq![32nat, 32nat, 32nat, 32nat]
}

/// Whether results of these kinds come back through caller-reserved memory.
pub open spec fn needs_sret(results: Seq<Type>) -> bool {
    !returned_directly(bit_widths(results))
}

/// Width in bits of a value of kind `ty`.
pub fn width_of(ty: Type) -> (w: u32)
    ensures
        w == bit_width(ty),
{
    match ty {
        Type::I32 | Type::F32 => 32,
        Type::I64 | Type::F64 => 64,
        Type::V128 => 128,
    }
}

/// The widths in bits of the given kinds, in order.
pub fn widths_of(types: &Vec<Type>) -> (widths: Vec<u32>)
    ensures
        widths@.len() == types@.len(),
        forall|i: int| 0 <= i < types@.len() ==> widths@[i] == bit_width(types@[i]),
{
    let mut widths: Vec<u32> = Vec::new();
    let mut i: usize = 0;
    while i < types.len()
        invariant
            0 <= i <= types@.len(),
            widths@.len() == i,
            forall|j: int| 0 <= j < i ==> widths@[j] == bit_width(types@[j]),
        decreases types@.len() - i,
    {
        widths.push(width_of(types[i]));
        i = i + 1;
    }
    widths
}

/// The widths held in `widths`, as a sequence of naturals.
pub open spec fn widths_view(widths: Seq<u32>) -> Seq<nat> {
    Seq::new(widths.len(), |i: int| widths[i] as nat)
}

/// Decides from the widths of the results whether they come back through
/// memory: true exactly when the sequence is none of the register shapes.
pub fn is_sret(widths: &Vec<u32>) -> (indirect: bool)
    ensures
        indirect == !returned_directly(widths_view(widths@)),
{
    let n = widths.len();
    proof {
        lemma_register_shapes(widths_view(widths@));
    }
    let direct = if n <= 1 {
        true
    } else if n == 2 {
        let a = widths[0];
        let b = widths[1];
        (a == 32 || a == 64) && (b == 32 || b == 64)
    } else if n == 3 {
        let a = widths[0];
        let b = widths[1];
        let c = widths[2];
        (a == 32 && b == 32 && (c == 32 || c == 64)) || (a == 64 && b == 32 && c == 32)
    } else if n == 4 {
        widths[0] == 32 && widths[1] == 32 && widths[2] == 32 && widths[3] == 32
    } else {
        false
    };
    !direct
}

/// The register shapes, spelled out element by element.
proof fn lemma_register_shapes(w: Seq<nat>)
    ensures
        returned_directly(w) <==> {
            ||| w.len() <= 1
            ||| (w.len() == 2 && (w[0] == 32 || w[0] == 64) && (w[1] == 32 || w[1] == 64))
            ||| (w.len() == 3 && w[0] == 32 && w[1] == 32 && (w[2] == 32 || w[2] == 64))
            ||| (w.len() == 3 && w[0] == 64 && w[1] == 32 && w[2] == 32)
            ||| (w.len() == 4 && w[0] == 32 && w[1] == 32 && w[2] == 32 && w[3] == 32)
        },
{
    lemma_pair(w, 32, 64);
    lemma_pair(w, 64, 32);
    lemma_pair(w, 64, 64);
    lemma_pair(w, 32, 32);
    lemma_triple(w, 32, 32, 32);
    lemma_triple(w, 32, 32, 64);
    lemma_triple(w, 64, 32, 32);
    let s = seq![32nat, 32nat, 32nat, 32nat];
    assert(s.len() == 4 && s[0] == 32 && s[1] == 32 && s[2] == 32 && s[3] == 32);
    if w.len() == 4 && w[0] == 32 && w[1] == 32 && w[2] == 32 && w[3] == 32 {
        assert(w =~= s);
    }
}

proof fn lemma_pair(w: Seq<nat>, a: nat, b: nat)
    ensures
        (w == seq![a, b]) <==> (w.len() == 2 && w[0] == a && w[1] == b),
{
    let s = seq![a, b];
    assert(s.len() == 2 && s[0] == a && s[1] == b);
    if w.len() == 2 && w[0] == a && w[1] == b {
        assert(w =~= s);
    }
}

proof fn lemma_triple(w: Seq<nat>, a: nat, b: nat, c: nat)
    ensures
        (w == seq![a, b, c]) <==> (w.len() == 3 && w[0] == a && w[1] == b && w[2] == c),
{
    let s = seq![a, b, c];
    assert(s.len() == 3 && s[0] == a && s[1] == b && s[2] == c);
    if w.len() == 3 && w[0] == a && w[1] == b && w[2] == c {
        assert(w =~= s);
    }
}

} // verus!
