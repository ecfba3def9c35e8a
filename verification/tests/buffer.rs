use llvm_backend::buffer::{decode, encode, load_value, push_value};
use llvm_backend::types::{Type, Value};

#[test]
fn scalars_fill_the_low_bits_of_one_slot() {
    assert_eq!(encode(&vec![Value::I32(0xdead_beef)]), vec![0xdead_beef]);
    assert_eq!(encode(&vec![Value::F32(0x3f80_0000)]), vec![0x3f80_0000]);
    assert_eq!(
        encode(&vec![Value::I64(0x0123_4567_89ab_cdef)]),
        vec![0x0123_4567_89ab_cdef]
    );
    assert_eq!(
        encode(&vec![Value::F64(0x4009_21fb_5444_2d18)]),
        vec![0x4009_21fb_5444_2d18]
    );
}

#[test]
fn vector_fills_two_slots_low_half_first() {
    let v = Value::V128(0x0011_2233_4455_6677_8899_aabb_ccdd_eeff);
    assert_eq!(
        encode(&vec![v]),
        vec![0x8899_aabb_ccdd_eeff, 0x0011_2233_4455_6677]
    );
}

#[test]
fn buffer_length_is_the_slot_count() {
    let values = vec![
        Value::I32(1),
        Value::V128(2),
        Value::F64(3),
        Value::V128(4),
        Value::I64(5),
    ];
    assert_eq!(encode(&values).len(), 7);
    assert_eq!(encode(&Vec::new()).len(), 0);
}

#[test]
fn decoding_an_encoded_run_gives_the_run() {
    let values = vec![
        Value::I32(u32::MAX),
        Value::V128(u128::MAX - 5),
        Value::F32(0x7fc0_0000),
        Value::F64(u64::MAX),
        Value::I64(0),
        Value::V128(1 << 64),
        Value::V128((1 << 64) - 1),
    ];
    let types: Vec<Type> = values.iter().map(|v| v.ty()).collect();
    let buf = encode(&values);
    assert_eq!(decode(&types, &buf), Some(values));
}

#[test]
fn round_trip_for_every_kind_and_small_arity() {
    let samples = [
        Value::I32(0x8000_0001),
        Value::I64(0x8000_0000_0000_0001),
        Value::F32(0xff80_0000),
        Value::F64(0xfff0_0000_0000_0000),
        Value::V128(0x8000_0000_0000_0000_0000_0000_0000_0001),
    ];
    for a in samples {
        for b in samples {
            for c in samples {
                for n in 0..4 {
                    let values: Vec<Value> = [a, b, c][..n.min(3)].to_vec();
                    let types: Vec<Type> = values.iter().map(|v| v.ty()).collect();
                    assert_eq!(decode(&types, &encode(&values)), Some(values));
                }
            }
        }
    }
}

#[test]
fn decoding_ignores_slots_after_the_values() {
    let mut buf = encode(&vec![Value::I64(7), Value::V128(9)]);
    buf.push(0xffff);
    assert_eq!(
        decode(&vec![Type::I64, Type::V128], &buf),
        Some(vec![Value::I64(7), Value::V128(9)])
    );
}

#[test]
fn short_buffer_is_refused() {
    assert_eq!(decode(&vec![Type::I32], &vec![]), None);
    assert_eq!(decode(&vec![Type::V128], &vec![1]), None);
    assert_eq!(decode(&vec![Type::I32, Type::V128], &vec![1, 2]), None);
    assert_eq!(decode(&vec![], &vec![]), Some(vec![]));
}

#[test]
fn narrow_load_drops_the_high_bits_of_the_slot() {
    let buf = vec![0xaaaa_bbbb_cccc_dddd];
    assert_eq!(load_value(Type::I32, &buf, 0), Value::I32(0xcccc_dddd));
    assert_eq!(load_value(Type::F32, &buf, 0), Value::F32(0xcccc_dddd));
    assert_eq!(
        load_value(Type::I64, &buf, 0),
        Value::I64(0xaaaa_bbbb_cccc_dddd)
    );
}

#[test]
fn load_reads_at_the_given_slot() {
    let buf = vec![1, 2, 3, 4];
    assert_eq!(load_value(Type::F64, &buf, 2), Value::F64(3));
    assert_eq!(
        load_value(Type::V128, &buf, 2),
        Value::V128((4u128 << 64) | 3)
    );
}

#[test]
fn push_appends_to_what_is_there() {
    let mut buf = vec![5];
    push_value(&mut buf, Value::V128(1));
    push_value(&mut buf, Value::I32(6));
    assert_eq!(buf, vec![5, 1, 0, 6]);
}
