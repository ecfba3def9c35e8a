//! Trampolines: the glue between the generic calling convention and a callee.
//!
//! Every trampoline has the same entry shape,
//! `(context, callee, arguments, results) -> void`. It loads the callee's
//! arguments from the argument buffer, calls the callee, and stores what comes
//! back into the result buffer. This module decides, from a signature alone,
//! everything that such a function does; an emitter only has to follow the
//! plan instruction by instruction.

use vstd::prelude::*;
use crate::abi::{bit_widths, is_sret, needs_sret, widths_of, widths_view};
use crate::naming::{decimal, decimal_string, trampoline_name, trampoline_symbol};
use crate::slots::{
    compute_slot_offsets, fits_within, lemma_slot_count_bounds, lemma_slot_offset_bounded,
    lemma_slot_offset_end, lemma_slot_offset_step, slot_count, slot_offset, slot_width,
};
use crate::buffer::{decoded, encoded, lemma_round_trip, load};
use crate::types::{types_of, FuncSig, Type, Value};

verus! {

/// The largest slot count of one buffer: slots are addressed by a signed
/// 32-bit index.
pub const MAX_SLOTS: u32 = 0x7fff_ffff;

/// The first-class machine type that a value kind is lowered to.
#[derive(Clone, Copy, Debug, PartialEq, Eq, Hash, Structural)]
pub enum BasicType {
    /// 32-bit integer.
    I32,
    /// 64-bit integer.
    I64,
    /// 32-bit float.
    F32,
    /// 64-bit float.
    F64,
    /// 128-bit integer, which carries a vector.
    I128,
}

/// The machine type of a value kind.
pub open spec fn llvm_type(ty: Type) -> BasicType {
    match ty {
        Type::I32 => BasicType::I32,
        Type::I64 => BasicType::I64,
        Type::F32 => BasicType::F32,
        Type::F64 => BasicType::F64,
        Type::V128 => BasicType::I128,
    }
}

/// The machine types of a run of kinds, in order.
pub open spec fn llvm_types(types: Seq<Type>) -> Seq<BasicType> {
    Seq::new(types.len(), |i: int| llvm_type(types[i]))
}

/// The machine type of a value kind.
pub fn type_to_llvm(ty: Type) -> (t: BasicType)
    ensures
        t == llvm_type(ty),
{
    match ty {
        Type::I32 => BasicType::I32,
        Type::I64 => BasicType::I64,
        Type::F32 => BasicType::F32,
        Type::F64 => BasicType::F64,
        Type::V128 => BasicType::I128,
    }
}

/// A place in a slot buffer together with the kind of the value that lies
/// there. A load or a store goes through a pointer to that slot, cast to a
/// pointer to the kind's machine type.
#[derive(Clone, Copy, Debug, PartialEq, Eq, Hash, Structural)]
pub struct TypedSlot {
    /// Index of the first slot of the value.
    pub slot: u32,
    /// Kind of the value.
    pub ty: Type,
}

/// One argument of the call to the callee.
#[derive(Clone, Copy, Debug, PartialEq, Eq, Hash, Structural)]
pub enum CallArg {
    /// The address of the aggregate that receives the results.
    Sret,
    /// The context pointer.
    Context,
    /// The value of the load with this index.
    Loaded(usize),
}

/// The places of a run of values in a slot buffer, in order.
pub open spec fn typed_slots(types: Seq<Type>) -> Seq<TypedSlot> {
    Seq::new(
        types.len(),
        |i: int| (TypedSlot { slot: slot_offset(types, i) as u32, ty: types[i] }),
    )
}

/// The arguments of the call to a callee of signature `sig`: the result
/// aggregate where results come back through memory, then always the context,
/// then every parameter in declaration order.
pub open spec fn call_arguments(sig: FuncSig) -> Seq<CallArg> {
    let lead = if needs_sret(sig.results@) {
        seq![CallArg::Sret, CallArg::Context]
    } else {
        seq![CallArg::Context]
    };
    lead + Seq::new(sig.params@.len(), |i: int| CallArg::Loaded(i as usize))
}

/// The plan of one trampoline. `P` names a parameter of the trampoline's own
/// entry, `A` is an annotation of the callee's function type; both are carried
/// through untouched.
#[derive(Clone, Debug, PartialEq, Eq)]
pub struct Trampoline<P, A> {
    /// The context pointer: first entry parameter.
    pub context: P,
    /// The callee: second entry parameter.
    pub callee: P,
    /// The argument buffer: third entry parameter.
    pub args: P,
    /// The result buffer: fourth entry parameter.
    pub rets: P,
    /// Field types of the stack aggregate that receives the results, where
    /// they come back through memory; `None` where they come back in registers.
    pub sret: Option<Vec<BasicType>>,
    /// Loads from the argument buffer, one per parameter, in declaration order.
    pub loads: Vec<TypedSlot>,
    /// Arguments of the call, in order.
    pub call_args: Vec<CallArg>,
    /// Annotations to attach to the call, in the order they were recorded.
    pub attrs: Vec<A>,
    /// Stores to the result buffer, one per result, in declaration order. The
    /// stored value is the result with the same index: a member of the
    /// callee's return value, or a field of the aggregate.
    pub stores: Vec<TypedSlot>,
}

impl<P, A> Trampoline<P, A> {
    /// Whether results come back through memory.
    pub open spec fn spec_is_sret(&self) -> bool {
        self.sret is Some
    }

    /// Whether results come back through memory.
    #[verifier::when_used_as_spec(spec_is_sret)]
    pub fn is_sret(&self) -> (b: bool)
        ensures
            b == self.spec_is_sret(),
    {
        self.sret.is_some()
    }

    /// The layout that a trampoline has by its signature alone: whether
    /// results come back through memory and with which fields, where each
    /// argument is loaded from, what is passed to the callee, and where each
    /// result is stored.
    pub open spec fn has_shape_of(&self, sig: FuncSig) -> bool {
        &&& self.sret is Some <==> needs_sret(sig.results@)
        &&& self.sret is Some ==> self.sret->0@ == llvm_types(sig.results@)
        &&& self.loads@ == typed_slots(sig.params@)
        &&& self.call_args@ == call_arguments(sig)
        &&& self.stores@ == typed_slots(sig.results@)
    }

    /// The trampoline of a callee of signature `sig` with annotations `attrs`,
    /// for an entry whose parameters are `params`.
    pub open spec fn is_trampoline_of(&self, params: Seq<P>, sig: FuncSig, attrs: Seq<A>) -> bool {
        &&& params.len() == 4
        &&& self.context == params[0]
        &&& self.callee == params[1]
        &&& self.args == params[2]
        &&& self.rets == params[3]
        &&& self.attrs@ == attrs
        &&& self.has_shape_of(sig)
    }
}

/// Whether a signature can have a trampoline: the values of either buffer
/// must not take more than [`MAX_SLOTS`] slots.
pub open spec fn fits_slots(sig: FuncSig) -> bool {
    &&& slot_count(sig.params@) <= MAX_SLOTS
    &&& slot_count(sig.results@) <= MAX_SLOTS
}

/// Decides whether a signature can have a trampoline.
pub fn signature_fits(sig: &FuncSig) -> (fits: bool)
    ensures
        fits == fits_slots(*sig),
{
    fits_within(&sig.params, MAX_SLOTS) && fits_within(&sig.results, MAX_SLOTS)
}

/// A signature with at most a thousand million parameters and as many
/// results can have a trampoline, whatever their kinds are.
pub proof fn lemma_moderate_signature_fits(sig: FuncSig)
    requires
        sig.params@.len() <= 1_000_000_000,
        sig.results@.len() <= 1_000_000_000,
    ensures
        fits_slots(sig),
{
    lemma_slot_count_bounds(sig.params@);
    lemma_slot_count_bounds(sig.results@);
}

/// The message of the error that reports a malformed trampoline entry.
pub open spec fn malformed_entry_message() -> Seq<char> {
    "trampoline function unimplemented"@
}

/// Decides whether results of these kinds come back through memory.
pub fn results_need_sret(results: &Vec<Type>) -> (indirect: bool)
    ensures
        indirect == needs_sret(results@),
{
    let widths = widths_of(results);
    proof {
        assert(widths_view(widths@) =~= bit_widths(results@));
    }
    is_sret(&widths)
}

/// The machine types of the given kinds, in order.
pub fn types_to_llvm(types: &Vec<Type>) -> (out: Vec<BasicType>)
    ensures
        out@ == llvm_types(types@),
{
    let mut out: Vec<BasicType> = Vec::new();
    let mut i: usize = 0;
    while i < types.len()
        invariant
            0 <= i <= types@.len(),
            out@.len() == i,
            forall|j: int| 0 <= j < i ==> out@[j] == llvm_type(types@[j]),
        decreases types@.len() - i,
    {
        out.push(type_to_llvm(types[i]));
        i = i + 1;
    }
    assert(out@ =~= llvm_types(types@));
    out
}

/// Lays a run of values out in a slot buffer: the place of each, in order.
pub fn layout(types: &Vec<Type>) -> (places: Vec<TypedSlot>)
    requires
        slot_count(types@) <= MAX_SLOTS,
    ensures
        places@ == typed_slots(types@),
{
    let offsets = compute_slot_offsets(types);
    let mut places: Vec<TypedSlot> = Vec::new();
    let mut i: usize = 0;
    while i < types.len()
        invariant
            0 <= i <= types@.len(),
            offsets@.len() == types@.len(),
            forall|j: int| 0 <= j < types@.len() ==> offsets@[j] == slot_offset(types@, j),
            places@.len() == i,
            forall|j: int| 0 <= j < i ==> places@[j] == typed_slots(types@)[j],
        decreases types@.len() - i,
    {
        places.push(TypedSlot { slot: offsets[i], ty: types[i] });
        i = i + 1;
    }
    assert(places@ =~= typed_slots(types@));
    places
}

/// Plans the trampoline of a callee of signature `func_sig`.
///
/// `params` are the parameters captured from the trampoline's entry. There
/// must be exactly four of them: context, callee, argument buffer and result
/// buffer. Any other number is a broken agreement between whoever declared
/// the entry and this function, and is reported instead of planned around.
pub fn generate_trampoline<P: Copy, A: Copy>(
    params: &Vec<P>,
    func_sig: &FuncSig,
    func_attrs: &Vec<A>,
) -> (r: Result<Trampoline<P, A>, String>)
    requires
        fits_slots(*func_sig),
    ensures
        params@.len() == 4 ==> r is Ok && r->Ok_0.is_trampoline_of(
            params@,
            *func_sig,
            func_attrs@,
        ),
        params@.len() != 4 ==> r is Err && r->Err_0@ == malformed_entry_message(),
{
    if params.len() != 4 {
        return Err("trampoline function unimplemented".to_owned());
    }
    let context = params[0];
    let callee = params[1];
    let args = params[2];
    let rets = params[3];

    let mut call_args: Vec<CallArg> = Vec::new();
    let sret = if results_need_sret(&func_sig.results) {
        call_args.push(CallArg::Sret);
        Some(types_to_llvm(&func_sig.results))
    } else {
        None
    };
    call_args.push(CallArg::Context);
    let ghost lead = call_args@;
    assert(lead =~= if needs_sret(func_sig.results@) {
        seq![CallArg::Sret, CallArg::Context]
    } else {
        seq![CallArg::Context]
    });

    let loads = layout(&func_sig.params);
    let mut i: usize = 0;
    while i < func_sig.params.len()
        invariant
            0 <= i <= func_sig.params@.len(),
            call_args@.len() == lead.len() + i,
            lead == if needs_sret(func_sig.results@) {
                seq![CallArg::Sret, CallArg::Context]
            } else {
                seq![CallArg::Context]
            },
            forall|j: int| 0 <= j < lead.len() ==> call_args@[j] == lead[j],
            forall|j: int|
                lead.len() <= j < lead.len() + i ==> call_args@[j] == CallArg::Loaded(
                    (j - lead.len()) as usize,
                ),
        decreases func_sig.params@.len() - i,
    {
        call_args.push(CallArg::Loaded(i));
        i = i + 1;
    }
    assert(call_args@ =~= call_arguments(*func_sig));

    let mut attrs: Vec<A> = Vec::new();
    let mut k: usize = 0;
    while k < func_attrs.len()
        invariant
            0 <= k <= func_attrs@.len(),
            attrs@.len() == k,
            forall|j: int| 0 <= j < k ==> attrs@[j] == func_attrs@[j],
        decreases func_attrs@.len() - k,
    {
        attrs.push(func_attrs[k]);
        k = k + 1;
    }
    assert(attrs@ =~= func_attrs@);

    let stores = layout(&func_sig.results);
    Ok(Trampoline { context, callee, args, rets, sret, loads, call_args, attrs, stores })
}

/// The kind of a parameter of a trampoline's entry.
#[derive(Clone, Copy, Debug, PartialEq, Eq, Hash, Structural)]
pub enum EntryType {
    /// Pointer to the context.
    ContextPtr,
    /// Pointer to a function of the callee's compiled type.
    CalleePtr,
    /// Pointer to a buffer of 64-bit slots.
    SlotPtr,
}

/// The entry that every trampoline has, whatever its callee: context, callee,
/// argument buffer, result buffer. It returns nothing.
pub open spec fn entry_types() -> Seq<EntryType> {
    seq![EntryType::ContextPtr, EntryType::CalleePtr, EntryType::SlotPtr, EntryType::SlotPtr]
}

/// `inkwell::module::Linkage`: how a symbol of a module is seen from outside
/// it. An enum of plain variants, which verified code names directly.
#[verifier::external_type_specification]
pub struct ExLinkage(inkwell::module::Linkage);

/// A trampoline as a function of the module: its symbol and how the symbol is
/// seen from outside the module, its entry and its plan. The plan names the
/// entry parameters by their positions.
#[derive(Debug, PartialEq, Eq)]
pub struct TrampolineFunction<A> {
    /// The symbol.
    pub name: String,
    /// The linkage of the symbol: every trampoline can be called from outside
    /// the module.
    pub linkage: inkwell::module::Linkage,
    /// Index of the signature that the trampoline serves.
    pub sig_index: usize,
    /// Kinds of the entry parameters.
    pub entry: Vec<EntryType>,
    /// What the function does.
    pub body: Trampoline<usize, A>,
}

impl<A> TrampolineFunction<A> {
    /// The trampoline function of the signature `sig` with index `index`,
    /// whose compiled function type has the annotations `attrs`.
    pub open spec fn is_function_of(&self, index: nat, sig: FuncSig, attrs: Seq<A>) -> bool {
        &&& self.name@ == trampoline_symbol(index)
        &&& self.linkage == inkwell::module::Linkage::External
        &&& self.sig_index == index
        &&& self.entry@ == entry_types()
        &&& self.body.is_trampoline_of(seq![0usize, 1usize, 2usize, 3usize], sig, attrs)
    }
}

/// The message of the error that reports a signature without compiled
/// function type.
pub open spec fn missing_type_message(index: nat) -> Seq<char> {
    "no compiled function type for signature "@ + decimal(index)
}

/// Plans the trampolines of a module: one for every signature of its table,
/// at the signature's index.
///
/// `attrs` holds, at the index of each signature, the annotations of its
/// compiled function type. A signature without such an entry stops the whole
/// generation with an error: no table with a gap is ever handed out.
pub fn generate_trampolines<A: Copy>(signatures: &Vec<FuncSig>, attrs: &Vec<Vec<A>>) -> (r: Result<
    Vec<TrampolineFunction<A>>,
    String,
>)
    requires
        forall|i: int| 0 <= i < signatures@.len() ==> fits_slots(#[trigger] signatures@[i]),
    ensures
        attrs@.len() >= signatures@.len() ==> r is Ok && r->Ok_0@.len() == signatures@.len()
            && forall|i: int|
            0 <= i < signatures@.len() ==> (#[trigger] r->Ok_0@[i]).is_function_of(
                i as nat,
                signatures@[i],
                attrs@[i]@,
            ),
        attrs@.len() < signatures@.len() ==> r is Err && r->Err_0@ == missing_type_message(
            attrs@.len(),
        ),
{
    let mut table: Vec<TrampolineFunction<A>> = Vec::new();
    let mut i: usize = 0;
    while i < signatures.len()
        invariant
            0 <= i <= signatures@.len(),
            i <= attrs@.len(),
            forall|j: int| 0 <= j < signatures@.len() ==> fits_slots(#[trigger] signatures@[j]),
            table@.len() == i,
            forall|j: int|
                0 <= j < i ==> (#[trigger] table@[j]).is_function_of(
                    j as nat,
                    signatures@[j],
                    attrs@[j]@,
                ),
        decreases signatures@.len() - i,
    {
        if i >= attrs.len() {
            let index = decimal_string(i);
            return Err("no compiled function type for signature ".to_owned().concat(index.as_str()));
        }
        let positions: Vec<usize> = vec![0usize, 1usize, 2usize, 3usize];
        let entry: Vec<EntryType> = vec![
            EntryType::ContextPtr,
            EntryType::CalleePtr,
            EntryType::SlotPtr,
            EntryType::SlotPtr,
        ];
        assert(positions@ =~= seq![0usize, 1usize, 2usize, 3usize]);
        assert(entry@ =~= entry_types());
        match generate_trampoline(&positions, &signatures[i], &attrs[i]) {
            Ok(body) => {
                table.push(
                    TrampolineFunction {
                        name: trampoline_name(i),
                        linkage: inkwell::module::Linkage::External,
                        sig_index: i,
                        entry,
                        body,
                    },
                );
            },
            Err(e) => {
                return Err(e);
            },
        }
        i = i + 1;
    }
    Ok(table)
}

/// The shape of a trampoline is a function of the shape of its signature:
/// two signatures with the same parameter kinds and the same result kinds
/// have trampolines that agree in how results come back, in every load, in
/// the arguments of the call and in every store, whatever their indices,
/// entries and annotations are.
pub proof fn lemma_shape_is_function_of_signature<P, A, Q, B>(
    first: Trampoline<P, A>,
    first_sig: FuncSig,
    second: Trampoline<Q, B>,
    second_sig: FuncSig,
)
    requires
        first_sig.params@ == second_sig.params@,
        first_sig.results@ == second_sig.results@,
        first.has_shape_of(first_sig),
        second.has_shape_of(second_sig),
    ensures
        first.is_sret() == second.is_sret(),
        first.is_sret() ==> first.sret->0@ == second.sret->0@,
        first.loads@ == second.loads@,
        first.call_args@ == second.call_args@,
        first.stores@ == second.stores@,
{
}

/// The slot-width law for a plan: the loads cover the argument buffer without
/// gap or overlap, each load starting where the one before it ends, and the
/// first at slot zero; the same holds of the stores and the result buffer.
pub proof fn lemma_plan_is_contiguous<P, A>(plan: Trampoline<P, A>, sig: FuncSig)
    requires
        plan.has_shape_of(sig),
        fits_slots(sig),
    ensures
        plan.loads@.len() == sig.params@.len(),
        plan.stores@.len() == sig.results@.len(),
        forall|i: int|
            0 <= i < plan.loads@.len() ==> (#[trigger] plan.loads@[i]).slot == slot_offset(
                sig.params@,
                i,
            ),
        forall|i: int|
            0 <= i < plan.stores@.len() ==> (#[trigger] plan.stores@[i]).slot == slot_offset(
                sig.results@,
                i,
            ),
        forall|i: int|
            0 <= i < plan.loads@.len() - 1 ==> (#[trigger] plan.loads@[i + 1]).slot
                == plan.loads@[i].slot + slot_width(plan.loads@[i].ty),
        forall|i: int|
            0 <= i < plan.stores@.len() - 1 ==> (#[trigger] plan.stores@[i + 1]).slot
                == plan.stores@[i].slot + slot_width(plan.stores@[i].ty),
        plan.loads@.len() > 0 ==> plan.loads@[0].slot == 0,
        plan.stores@.len() > 0 ==> plan.stores@[0].slot == 0,
        plan.loads@.len() > 0 ==> plan.loads@.last().slot + slot_width(plan.loads@.last().ty)
            == slot_count(sig.params@),
        plan.stores@.len() > 0 ==> plan.stores@.last().slot + slot_width(plan.stores@.last().ty)
            == slot_count(sig.results@),
{
    lemma_typed_slots(sig.params@);
    lemma_typed_slots(sig.results@);
}

/// The values that loads at `places` read from `buf`, in order.
pub open spec fn loaded_values(places: Seq<TypedSlot>, buf: Seq<u64>) -> Seq<Value> {
    Seq::new(places.len(), |i: int| load(places[i].ty, buf, places[i].slot as int))
}

/// The loads of a plan read the arguments: from a buffer that holds values of
/// the parameter kinds one after the other, the loads get exactly these
/// values, in order. The same holds of the places of the stores and a buffer
/// that holds the results: whoever reads the result buffer by the kinds of the
/// results finds each result where the trampoline stored it.
pub proof fn lemma_plan_agrees_with_buffers<P, A>(
    plan: Trampoline<P, A>,
    sig: FuncSig,
    args: Seq<Value>,
    rets: Seq<Value>,
)
    requires
        plan.has_shape_of(sig),
        fits_slots(sig),
        types_of(args) == sig.params@,
        types_of(rets) == sig.results@,
    ensures
        loaded_values(plan.loads@, encoded(args)) == args,
        loaded_values(plan.stores@, encoded(rets)) == rets,
        loaded_values(plan.loads@, encoded(args)) == decoded(sig.params@, encoded(args)),
        loaded_values(plan.stores@, encoded(rets)) == decoded(sig.results@, encoded(rets)),
{
    lemma_typed_slots(sig.params@);
    lemma_typed_slots(sig.results@);
    lemma_round_trip(args);
    lemma_round_trip(rets);
    assert(loaded_values(plan.loads@, encoded(args)) =~= decoded(sig.params@, encoded(args)));
    assert(loaded_values(plan.stores@, encoded(rets)) =~= decoded(sig.results@, encoded(rets)));
}

/// The places of a run of values that fits: each at its offset, each next to
/// the one before it.
proof fn lemma_typed_slots(types: Seq<Type>)
    requires
        slot_count(types) <= MAX_SLOTS,
    ensures
        forall|i: int|
            0 <= i < types.len() ==> (#[trigger] typed_slots(types)[i]).slot == slot_offset(
                types,
                i,
            ),
        forall|i: int|
            0 <= i < types.len() - 1 ==> (#[trigger] typed_slots(types)[i + 1]).slot == typed_slots(
                types,
            )[i].slot + slot_width(types[i]),
        types.len() > 0 ==> typed_slots(types)[0].slot == 0,
        types.len() > 0 ==> typed_slots(types).last().slot + slot_width(types.last())
            == slot_count(types),
{
    lemma_slot_offset_end(types);
    if types.len() > 0 {
        lemma_slot_offset_bounded(types, types.len() - 1);
        lemma_slot_offset_step(types, types.len() - 1);
    }
    assert forall|i: int| 0 <= i < types.len() implies (#[trigger] typed_slots(types)[i]).slot
        == slot_offset(types, i) by {
        lemma_slot_offset_bounded(types, i);
    }
    assert forall|i: int| 0 <= i < types.len() - 1 implies (#[trigger] typed_slots(types)[i
        + 1]).slot == typed_slots(types)[i].slot + slot_width(types[i]) by {
        lemma_slot_offset_bounded(types, i);
        lemma_slot_offset_bounded(types, i + 1);
        lemma_slot_offset_step(types, i);
    }
}

} // verus!
