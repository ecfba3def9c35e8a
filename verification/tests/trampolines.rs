use llvm_backend::abi::{is_sret, width_of, widths_of};
use llvm_backend::buffer::{encode, load_value};
use llvm_backend::naming::{decimal_string, trampoline_name};
use llvm_backend::slots::{compute_slot_offsets, fits_within, slots_of};
use llvm_backend::trampolines::{
    generate_trampoline, generate_trampolines, results_need_sret, signature_fits, type_to_llvm,
    BasicType, CallArg, EntryType, TypedSlot,
};
use llvm_backend::types::{FuncSig, Type, Value};

fn kinds(widths: &[u32]) -> Vec<Type> {
    widths
        .iter()
        .map(|w| match w {
            32 => Type::I32,
            64 => Type::I64,
            _ => Type::V128,
        })
        .collect()
}

#[test]
fn scalar_takes_one_slot_and_vector_two() {
    assert_eq!(slots_of(Type::I32), 1);
    assert_eq!(slots_of(Type::I64), 1);
    assert_eq!(slots_of(Type::F32), 1);
    assert_eq!(slots_of(Type::F64), 1);
    assert_eq!(slots_of(Type::V128), 2);
}

#[test]
fn widths_follow_the_kind() {
    assert_eq!(width_of(Type::I32), 32);
    assert_eq!(width_of(Type::F32), 32);
    assert_eq!(width_of(Type::I64), 64);
    assert_eq!(width_of(Type::F64), 64);
    assert_eq!(width_of(Type::V128), 128);
    assert_eq!(
        widths_of(&vec![Type::F32, Type::V128, Type::I64]),
        vec![32, 128, 64]
    );
}

#[test]
fn every_listed_shape_is_returned_directly() {
    let shapes: Vec<Vec<u32>> = vec![
        vec![],
        vec![32],
        vec![64],
        vec![128],
        vec![32, 64],
        vec![64, 32],
        vec![64, 64],
        vec![32, 32],
        vec![32, 32, 32],
        vec![32, 32, 64],
        vec![64, 32, 32],
        vec![32, 32, 32, 32],
    ];
    for shape in shapes {
        assert!(!is_sret(&shape), "{:?}", shape);
        assert!(!results_need_sret(&kinds(&shape)), "{:?}", shape);
    }
}

#[test]
fn every_other_shape_is_returned_through_memory() {
    let shapes: Vec<Vec<u32>> = vec![
        vec![32, 32, 32, 64],
        vec![32, 32, 32, 32, 32],
        vec![64, 64, 64],
        vec![64, 64, 32],
        vec![32, 64, 32],
        vec![32, 64, 64],
        vec![64, 32, 64],
        vec![128, 32],
        vec![32, 128],
        vec![128, 128],
        vec![64, 32, 32, 32],
        vec![32, 32, 32, 32, 32, 32],
    ];
    for shape in shapes {
        assert!(is_sret(&shape), "{:?}", shape);
        assert!(results_need_sret(&kinds(&shape)), "{:?}", shape);
    }
}

#[test]
fn float_results_classify_as_integers_of_their_width() {
    assert!(!results_need_sret(&vec![Type::F32, Type::F64]));
    assert!(!results_need_sret(&vec![Type::F64, Type::I32, Type::F32]));
    assert!(results_need_sret(&vec![Type::F64, Type::F64, Type::F64]));
}

#[test]
fn offsets_skip_a_slot_after_each_vector() {
    assert_eq!(compute_slot_offsets(&vec![]), Vec::<u32>::new());
    assert_eq!(
        compute_slot_offsets(&vec![Type::V128, Type::I32]),
        vec![0, 2]
    );
    assert_eq!(
        compute_slot_offsets(&vec![Type::I32, Type::V128, Type::V128, Type::F64, Type::I64]),
        vec![0, 1, 3, 5, 6]
    );
}

#[test]
fn machine_types_of_the_kinds() {
    assert_eq!(type_to_llvm(Type::I32), BasicType::I32);
    assert_eq!(type_to_llvm(Type::I64), BasicType::I64);
    assert_eq!(type_to_llvm(Type::F32), BasicType::F32);
    assert_eq!(type_to_llvm(Type::F64), BasicType::F64);
    assert_eq!(type_to_llvm(Type::V128), BasicType::I128);
}

#[test]
fn two_i32_results_come_back_directly() {
    let sig = FuncSig::new(vec![], vec![Type::I32, Type::I32]);
    let plan = generate_trampoline(&vec!['c', 'f', 'a', 'r'], &sig, &Vec::<u8>::new()).unwrap();
    assert!(!plan.is_sret());
    assert_eq!(plan.sret, None);
    assert_eq!(plan.call_args, vec![CallArg::Context]);
    assert_eq!(plan.loads, vec![]);
    assert_eq!(
        plan.stores,
        vec![
            TypedSlot { slot: 0, ty: Type::I32 },
            TypedSlot { slot: 1, ty: Type::I32 },
        ]
    );
}

#[test]
fn five_i32_results_come_back_through_an_aggregate() {
    let sig = FuncSig::new(vec![], vec![Type::I32; 5]);
    let plan = generate_trampoline(&vec!['c', 'f', 'a', 'r'], &sig, &Vec::<u8>::new()).unwrap();
    assert!(plan.is_sret());
    assert_eq!(plan.sret, Some(vec![BasicType::I32; 5]));
    assert_eq!(plan.call_args, vec![CallArg::Sret, CallArg::Context]);
    let slots: Vec<u32> = plan.stores.iter().map(|s| s.slot).collect();
    assert_eq!(slots, vec![0, 1, 2, 3, 4]);
    assert!(plan.stores.iter().all(|s| s.ty == Type::I32));
}

#[test]
fn vector_parameter_takes_slots_zero_and_one() {
    let sig = FuncSig::new(vec![Type::V128, Type::I32], vec![Type::F64]);
    let plan = generate_trampoline(&vec![10u8, 11, 12, 13], &sig, &vec!["noalias"]).unwrap();
    assert_eq!(
        plan.loads,
        vec![
            TypedSlot { slot: 0, ty: Type::V128 },
            TypedSlot { slot: 2, ty: Type::I32 },
        ]
    );
    assert_eq!(
        plan.call_args,
        vec![CallArg::Context, CallArg::Loaded(0), CallArg::Loaded(1)]
    );
    assert!(!plan.is_sret());
    assert_eq!(plan.stores, vec![TypedSlot { slot: 0, ty: Type::F64 }]);
    assert_eq!(plan.attrs, vec!["noalias"]);
    assert_eq!(
        (plan.context, plan.callee, plan.args, plan.rets),
        (10, 11, 12, 13)
    );
}

#[test]
fn vector_result_advances_the_store_slot_by_two() {
    let sig = FuncSig::new(vec![], vec![Type::V128, Type::I64, Type::V128]);
    let plan = generate_trampoline(&vec![0u8, 1, 2, 3], &sig, &Vec::<u8>::new()).unwrap();
    assert!(plan.is_sret());
    assert_eq!(
        plan.sret,
        Some(vec![BasicType::I128, BasicType::I64, BasicType::I128])
    );
    assert_eq!(
        plan.stores,
        vec![
            TypedSlot { slot: 0, ty: Type::V128 },
            TypedSlot { slot: 2, ty: Type::I64 },
            TypedSlot { slot: 3, ty: Type::V128 },
        ]
    );
}

#[test]
fn wrong_number_of_entry_parameters_is_an_error() {
    let sig = FuncSig::new(vec![Type::I32], vec![]);
    for n in [0usize, 1, 2, 3, 5, 6] {
        let params: Vec<usize> = (0..n).collect();
        let r = generate_trampoline(&params, &sig, &Vec::<u8>::new());
        assert_eq!(r, Err("trampoline function unimplemented".to_string()));
    }
}

#[test]
fn same_signature_shape_gives_the_same_plan() {
    let first = FuncSig::new(vec![Type::I64, Type::V128], vec![Type::F32, Type::F32]);
    let second = FuncSig::new(vec![Type::I64, Type::V128], vec![Type::F32, Type::F32]);
    let table = generate_trampolines(
        &vec![first, FuncSig::new(vec![], vec![]), second],
        &vec![vec![1u8], vec![], vec![2u8, 3]],
    )
    .unwrap();
    assert_eq!(table[0].body.sret, table[2].body.sret);
    assert_eq!(table[0].body.loads, table[2].body.loads);
    assert_eq!(table[0].body.call_args, table[2].body.call_args);
    assert_eq!(table[0].body.stores, table[2].body.stores);
    assert_ne!(table[0].name, table[2].name);
}

#[test]
fn table_has_one_named_entry_per_signature() {
    let signatures: Vec<FuncSig> = (0..12)
        .map(|i| FuncSig::new(vec![Type::I32; i], vec![Type::I64; i % 3]))
        .collect();
    let attrs: Vec<Vec<u16>> = (0..12).map(|i| vec![i as u16; i % 4]).collect();
    let table = generate_trampolines(&signatures, &attrs).unwrap();
    assert_eq!(table.len(), 12);
    for (i, function) in table.iter().enumerate() {
        assert_eq!(function.name, format!("trmp{}", i));
        assert_eq!(function.sig_index, i);
        assert_eq!(function.linkage, inkwell::module::Linkage::External);
        assert_eq!(
            function.entry,
            vec![
                EntryType::ContextPtr,
                EntryType::CalleePtr,
                EntryType::SlotPtr,
                EntryType::SlotPtr,
            ]
        );
        assert_eq!(function.body.loads.len(), i);
        assert_eq!(function.body.stores.len(), i % 3);
        assert_eq!(function.body.attrs, attrs[i]);
        assert_eq!(
            (
                function.body.context,
                function.body.callee,
                function.body.args,
                function.body.rets
            ),
            (0, 1, 2, 3)
        );
    }
}

#[test]
fn signature_without_compiled_type_stops_the_generation() {
    let signatures = vec![
        FuncSig::new(vec![], vec![]),
        FuncSig::new(vec![Type::I32], vec![]),
        FuncSig::new(vec![Type::I64], vec![]),
    ];
    let r = generate_trampolines(&signatures, &vec![Vec::<u8>::new()]);
    assert_eq!(
        r,
        Err("no compiled function type for signature 1".to_string())
    );
    let r = generate_trampolines(&signatures, &Vec::<Vec<u8>>::new());
    assert_eq!(
        r,
        Err("no compiled function type for signature 0".to_string())
    );
}

#[test]
fn entries_beyond_the_signature_table_are_ignored() {
    let signatures = vec![FuncSig::new(vec![], vec![Type::I32])];
    let table = generate_trampolines(&signatures, &vec![vec![7u8], vec![8u8]]).unwrap();
    assert_eq!(table.len(), 1);
    assert_eq!(table[0].body.attrs, vec![7u8]);
}

#[test]
fn empty_module_has_an_empty_table() {
    let table = generate_trampolines(&Vec::new(), &Vec::<Vec<u8>>::new()).unwrap();
    assert!(table.is_empty());
}

#[test]
fn names_are_decimal() {
    assert_eq!(decimal_string(0), "0");
    assert_eq!(decimal_string(9), "9");
    assert_eq!(decimal_string(10), "10");
    assert_eq!(decimal_string(4096), "4096");
    assert_eq!(decimal_string(1234567890), "1234567890");
    assert_eq!(trampoline_name(0), "trmp0");
    assert_eq!(trampoline_name(305), "trmp305");
}

#[test]
fn signatures_of_ordinary_size_fit() {
    assert!(signature_fits(&FuncSig::new(vec![], vec![])));
    assert!(signature_fits(&FuncSig::new(
        vec![Type::V128; 1000],
        vec![Type::I32; 1000]
    )));
    assert!(fits_within(&vec![Type::V128, Type::I32], 3));
    assert!(!fits_within(&vec![Type::V128, Type::I32], 2));
    assert!(!fits_within(&vec![Type::V128], 1));
    assert!(fits_within(&vec![], 0));
    assert!(!fits_within(&vec![Type::I64], 0));
}

#[test]
fn signature_hands_back_what_it_was_made_of() {
    let sig = FuncSig::new(vec![Type::I32, Type::V128], vec![Type::F64]);
    assert_eq!(*sig.params(), vec![Type::I32, Type::V128]);
    assert_eq!(*sig.results(), vec![Type::F64]);
    assert_eq!(sig, FuncSig::new(vec![Type::I32, Type::V128], vec![Type::F64]));
    assert_ne!(sig, FuncSig::new(vec![Type::I32], vec![Type::F64]));
}

#[test]
fn loads_and_stores_of_a_plan_agree_with_the_buffers() {
    let args = vec![
        Value::V128((7u128 << 70) | 3),
        Value::I32(9),
        Value::F64(0x3ff0_0000_0000_0000),
        Value::V128(u128::MAX),
        Value::I64(u64::MAX),
    ];
    let rets = vec![Value::F32(0x4000_0000), Value::V128(1u128 << 127), Value::I32(5)];
    let sig = FuncSig::new(
        args.iter().map(|v| v.ty()).collect(),
        rets.iter().map(|v| v.ty()).collect(),
    );
    let plan = generate_trampoline(&vec![0u8, 1, 2, 3], &sig, &Vec::<u8>::new()).unwrap();

    let args_buf = encode(&args);
    let loaded: Vec<Value> = plan
        .loads
        .iter()
        .map(|place| load_value(place.ty, &args_buf, place.slot as usize))
        .collect();
    assert_eq!(loaded, args);

    let rets_buf = encode(&rets);
    let stored: Vec<Value> = plan
        .stores
        .iter()
        .map(|place| load_value(place.ty, &rets_buf, place.slot as usize))
        .collect();
    assert_eq!(stored, rets);
}
