//! Reading and writing values in a slot buffer.
//!
//! The buffers that a trampoline reads its arguments from and writes its
//! results to are untyped: only the kinds of the values say where each one
//! lies. Writer and reader agree because both take their offsets from
//! [`crate::slots`].

use vstd::prelude::*;
use crate::slots::{
    lemma_slot_offset_bounded, lemma_slot_offset_end, lemma_slot_offset_step, slot_count,
    slot_offset, slot_width, slots_of,
};
use crate::types::{types_of, Type, Value};

verus! {

/// Two to the power 32: one more than the largest 32-bit pattern.
pub open spec fn two_32() -> int {
    0x1_0000_0000
}

/// Two to the power 64: one more than the largest slot.
pub open spec fn two_64() -> int {
    0x1_0000_0000_0000_0000
}

/// The slots that hold `v`: a scalar in the low bits of one slot, a vector with
/// its low half in the first of two slots.
pub open spec fn value_slots(v: Value) -> Seq<u64> {
    match v {
        Value::I32(x) => seq![x as u64],
        Value::I64(x) => seq![x],
        Value::F32(x) => seq![x as u64],
        Value::F64(x) => seq![x],
        Value::V128(x) => seq![(x as int % two_64()) as u64, (x as int / two_64()) as u64],
    }
}

/// The buffer that holds `values` one after the other.
pub open spec fn encoded(values: Seq<Value>) -> Seq<u64>
    decreases values.len(),
{
    if values.len() == 0 {
        Seq::empty()
    } else {
        encoded(values.drop_last()) + value_slots(values.last())
    }
}

/// The value of kind `ty` that starts at `slot` of `buf`.
pub open spec fn load(ty: Type, buf: Seq<u64>, slot: int) -> Value {
    match ty {
        Type::I32 => Value::I32((buf[slot] as int % two_32()) as u32),
        Type::I64 => Value::I64(buf[slot]),
        Type::F32 => Value::F32((buf[slot] as int % two_32()) as u32),
        Type::F64 => Value::F64(buf[slot]),
        Type::V128 => Value::V128((buf[slot + 1] as int * two_64() + buf[slot] as int) as u128),
    }
}

/// The values of kinds `types` that `buf` holds from its first slot on.
pub open spec fn decoded(types: Seq<Type>, buf: Seq<u64>) -> Seq<Value> {
    Seq::new(types.len(), |i: int| load(types[i], buf, slot_offset(types, i) as int))
}

/// A value takes as many slots as its kind says.
pub proof fn lemma_value_slots_len(v: Value)
    ensures
        value_slots(v).len() == slot_width(v.spec_ty()),
{
}

/// Reading a value back from the slots that hold it gives the value.
pub proof fn lemma_load_value_slots(v: Value, buf: Seq<u64>, slot: int)
    requires
        0 <= slot,
        slot + value_slots(v).len() <= buf.len(),
        buf.subrange(slot, slot + value_slots(v).len()) == value_slots(v),
    ensures
        load(v.spec_ty(), buf, slot) == v,
{
    let s = value_slots(v);
    let part = buf.subrange(slot, slot + s.len());
    assert(part[0] == buf[slot]);
    match v {
        Value::V128(x) => {
            assert(part[1] == buf[slot + 1]);
            assert(s[0] == (x as int % two_64()) as u64);
            assert(s[1] == (x as int / two_64()) as u64);
            assert((x as int / two_64()) * two_64() + x as int % two_64() == x as int);
        },
        _ => {},
    }
}

/// The kinds of a run without its last value.
proof fn lemma_types_of_drop_last(values: Seq<Value>)
    requires
        values.len() > 0,
    ensures
        types_of(values).drop_last() == types_of(values.drop_last()),
        types_of(values).last() == values.last().spec_ty(),
{
    assert(types_of(values).drop_last() =~= types_of(values.drop_last()));
}

/// The buffer of a run of values is as long as the slot count of their kinds.
pub proof fn lemma_encoded_len(values: Seq<Value>)
    ensures
        encoded(values).len() == slot_count(types_of(values)),
    decreases values.len(),
{
    if values.len() > 0 {
        lemma_encoded_len(values.drop_last());
        lemma_types_of_drop_last(values);
    }
}

/// In the buffer of a run of values, value `i` lies at its slot offset.
pub proof fn lemma_encoded_at(values: Seq<Value>, i: int)
    requires
        0 <= i < values.len(),
    ensures
        slot_offset(types_of(values), i) + value_slots(values[i]).len() <= encoded(values).len(),
        encoded(values).subrange(
            slot_offset(types_of(values), i) as int,
            (slot_offset(types_of(values), i) + value_slots(values[i]).len()) as int,
        ) == value_slots(values[i]),
    decreases values.len(),
{
    let types = types_of(values);
    let init = values.drop_last();
    let off = slot_offset(types, i) as int;
    let w = value_slots(values[i]).len() as int;
    lemma_types_of_drop_last(values);
    lemma_encoded_len(init);
    lemma_encoded_len(values);
    if i == values.len() - 1 {
        assert(types.take(i) =~= types.drop_last());
        assert(encoded(values).subrange(off, off + w) =~= value_slots(values[i]));
    } else {
        lemma_encoded_at(init, i);
        assert(types.take(i) =~= types_of(init).take(i));
        assert(encoded(values).subrange(off, off + w) =~= encoded(init).subrange(off, off + w));
    }
}

/// Round trip: reading the buffer of a run of values by their kinds gives the
/// same values, for every kind and every number of values.
pub proof fn lemma_round_trip(values: Seq<Value>)
    ensures
        decoded(types_of(values), encoded(values)) == values,
{
    let types = types_of(values);
    let buf = encoded(values);
    assert forall|i: int| 0 <= i < values.len() implies #[trigger] decoded(types, buf)[i]
        == values[i] by {
        lemma_encoded_at(values, i);
        lemma_load_value_slots(values[i], buf, slot_offset(types, i) as int);
    }
    assert(decoded(types, buf) =~= values);
}

/// Reading does not look past the slots of the values: slots that follow them
/// change nothing.
pub proof fn lemma_round_trip_with_tail(values: Seq<Value>, tail: Seq<u64>)
    ensures
        decoded(types_of(values), encoded(values) + tail) == values,
{
    let types = types_of(values);
    let buf = encoded(values);
    let long = buf + tail;
    assert forall|i: int| 0 <= i < values.len() implies #[trigger] decoded(types, long)[i]
        == values[i] by {
        lemma_encoded_at(values, i);
        let off = slot_offset(types, i) as int;
        let w = value_slots(values[i]).len() as int;
        assert(long.subrange(off, off + w) =~= buf.subrange(off, off + w));
        lemma_load_value_slots(values[i], long, off);
    }
    assert(decoded(types, long) =~= values);
}

/// Appends the slots of `v` to `buf`.
pub fn push_value(buf: &mut Vec<u64>, v: Value)
    ensures
        final(buf)@ == old(buf)@ + value_slots(v),
{
    match v {
        Value::I32(x) => {
            buf.push(x as u64);
        },
        Value::I64(x) => {
            buf.push(x);
        },
        Value::F32(x) => {
            buf.push(x as u64);
        },
        Value::F64(x) => {
            buf.push(x);
        },
        Value::V128(x) => {
            buf.push((x % 0x1_0000_0000_0000_0000) as u64);
            buf.push((x / 0x1_0000_0000_0000_0000) as u64);
        },
    }
    assert(final(buf)@ =~= old(buf)@ + value_slots(v));
}

/// Lays `values` out in a fresh buffer, one after the other.
pub fn encode(values: &Vec<Value>) -> (buf: Vec<u64>)
    ensures
        buf@ == encoded(values@),
        buf@.len() == slot_count(types_of(values@)),
{
    let mut buf: Vec<u64> = Vec::new();
    let mut i: usize = 0;
    while i < values.len()
        invariant
            0 <= i <= values@.len(),
            buf@ == encoded(values@.take(i as int)),
        decreases values@.len() - i,
    {
        proof {
            let next = values@.take(i + 1);
            assert(next.drop_last() =~= values@.take(i as int));
            assert(next.last() == values@[i as int]);
        }
        push_value(&mut buf, values[i]);
        i = i + 1;
    }
    proof {
        assert(values@.take(i as int) =~= values@);
        lemma_encoded_len(values@);
    }
    buf
}

/// Reads the value of kind `ty` that starts at `slot`.
pub fn load_value(ty: Type, buf: &Vec<u64>, slot: usize) -> (v: Value)
    requires
        slot + slot_width(ty) <= buf@.len(),
    ensures
        v == load(ty, buf@, slot as int),
{
    match ty {
        Type::I32 => Value::I32((buf[slot] % 0x1_0000_0000) as u32),
        Type::I64 => Value::I64(buf[slot]),
        Type::F32 => Value::F32((buf[slot] % 0x1_0000_0000) as u32),
        Type::F64 => Value::F64(buf[slot]),
        Type::V128 => {
            assert(buf@.len() == buf.len());
            let low: u128 = buf[slot] as u128;
            let high: u128 = buf[slot + 1] as u128;
            Value::V128(high * 0x1_0000_0000_0000_0000 + low)
        },
    }
}

/// Reads values of the given kinds from the start of `buf`. The buffer must
/// hold a slot for every one of them; a shorter buffer is refused, and no slot
/// outside the buffer is ever touched.
pub fn decode(types: &Vec<Type>, buf: &Vec<u64>) -> (values: Option<Vec<Value>>)
    ensures
        values is Some <==> slot_count(types@) <= buf@.len(),
        values is Some ==> values->0@ == decoded(types@, buf@),
{
    let mut values: Vec<Value> = Vec::new();
    let mut slot: usize = 0;
    let mut i: usize = 0;
    proof {
        lemma_slot_offset_end(types@);
    }
    while i < types.len()
        invariant
            0 <= i <= types@.len(),
            slot == slot_offset(types@, i as int),
            slot <= buf@.len(),
            values@.len() == i,
            forall|j: int|
                0 <= j < i ==> values@[j] == load(types@[j], buf@, slot_offset(types@, j) as int),
        decreases types@.len() - i,
    {
        let ty = types[i];
        let width: usize = slots_of(ty) as usize;
        proof {
            lemma_slot_offset_step(types@, i as int);
            lemma_slot_offset_bounded(types@, i + 1);
        }
        if width > buf.len() - slot {
            return None;
        }
        values.push(load_value(ty, buf, slot));
        slot = slot + width;
        i = i + 1;
    }
    proof {
        assert(values@ =~= decoded(types@, buf@));
    }
    Some(values)
}

} // verus!
