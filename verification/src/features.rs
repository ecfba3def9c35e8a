//! Feature sets: the WebAssembly proposals that a configuration accepts, and
//! the hardware capabilities of a target.

use vstd::prelude::*;

verus! {

/// The WebAssembly proposals that a compiler accepts.
#[derive(Clone, Copy, Debug, PartialEq, Eq, Hash, Structural)]
pub struct Features {
    /// Threads.
    pub threads: bool,
    /// Reference types.
    pub reference_types: bool,
    /// Vector instructions.
    pub simd: bool,
    /// Bulk memory operations.
    pub bulk_memory: bool,
    /// Multiple results.
    pub multi_value: bool,
    /// Tail calls.
    pub tail_call: bool,
    /// Module linking.
    pub module_linking: bool,
    /// Several memories.
    pub multi_memory: bool,
    /// Memories with 64-bit addresses.
    pub memory64: bool,
}

/// The proposals that are on unless a caller says otherwise: bulk memory and
/// multiple results.
pub open spec fn default_features() -> Features {
    Features {
        threads: false,
        reference_types: false,
        simd: false,
        bulk_memory: true,
        multi_value: true,
        tail_call: false,
        module_linking: false,
        multi_memory: false,
        memory64: false,
    }
}

/// `wasmer_compiler::Features::default`, field by field. The contract repeats
/// the values that the function assigns: everything off but bulk memory and
/// multiple results.
#[verifier::external_body]
fn wasmer_default_features() -> (f: Features)
    ensures
        f == default_features(),
{
    let f = wasmer_compiler::Features::default();
    Features {
        threads: f.threads,
        reference_types: f.reference_types,
        simd: f.simd,
        bulk_memory: f.bulk_memory,
        multi_value: f.multi_value,
        tail_call: f.tail_call,
        module_linking: f.module_linking,
        multi_memory: f.multi_memory,
        memory64: f.memory64,
    }
}

impl Features {
    /// The default proposals.
    pub fn new() -> (f: Features)
        ensures
            f == default_features(),
    {
        wasmer_default_features()
    }
}

impl Default for Features {
    fn default() -> (f: Features)
        ensures
            f == default_features(),
    {
        Features::new()
    }
}

/// `wasmer_compiler::CpuFeature`: a hardware capability of a target. An enum
/// of fourteen plain variants, which verified code names directly.
#[verifier::external_type_specification]
pub struct ExCpuFeature(wasmer_compiler::CpuFeature);

/// Every capability, in the order in which the enum lists them.
pub open spec fn all_cpu_features() -> Seq<wasmer_compiler::CpuFeature> {
    seq![
        wasmer_compiler::CpuFeature::SSE2,
        wasmer_compiler::CpuFeature::SSE3,
        wasmer_compiler::CpuFeature::SSSE3,
        wasmer_compiler::CpuFeature::SSE41,
        wasmer_compiler::CpuFeature::SSE42,
        wasmer_compiler::CpuFeature::POPCNT,
        wasmer_compiler::CpuFeature::AVX,
        wasmer_compiler::CpuFeature::BMI1,
        wasmer_compiler::CpuFeature::BMI2,
        wasmer_compiler::CpuFeature::AVX2,
        wasmer_compiler::CpuFeature::AVX512DQ,
        wasmer_compiler::CpuFeature::AVX512VL,
        wasmer_compiler::CpuFeature::AVX512F,
        wasmer_compiler::CpuFeature::LZCNT,
    ]
}

/// The position of a capability in [`all_cpu_features`].
pub open spec fn feature_index(feature: wasmer_compiler::CpuFeature) -> nat {
    match feature {
        wasmer_compiler::CpuFeature::SSE2 => 0,
        wasmer_compiler::CpuFeature::SSE3 => 1,
        wasmer_compiler::CpuFeature::SSSE3 => 2,
        wasmer_compiler::CpuFeature::SSE41 => 3,
        wasmer_compiler::CpuFeature::SSE42 => 4,
        wasmer_compiler::CpuFeature::POPCNT => 5,
        wasmer_compiler::CpuFeature::AVX => 6,
        wasmer_compiler::CpuFeature::BMI1 => 7,
        wasmer_compiler::CpuFeature::BMI2 => 8,
        wasmer_compiler::CpuFeature::AVX2 => 9,
        wasmer_compiler::CpuFeature::AVX512DQ => 10,
        wasmer_compiler::CpuFeature::AVX512VL => 11,
        wasmer_compiler::CpuFeature::AVX512F => 12,
        wasmer_compiler::CpuFeature::LZCNT => 13,
    }
}

/// Every capability stands in [`all_cpu_features`] at its index, and nowhere
/// else.
pub proof fn lemma_all_cpu_features()
    ensures
        all_cpu_features().len() == 14,
        forall|f: wasmer_compiler::CpuFeature| #[trigger]
            all_cpu_features()[feature_index(f) as int] == f,
        forall|i: int| 0 <= i < 14 ==> feature_index(#[trigger] all_cpu_features()[i]) == i,
{
    let all = all_cpu_features();
    assert(all.len() == 14);
    assert(all[0] == wasmer_compiler::CpuFeature::SSE2 && all[1]
        == wasmer_compiler::CpuFeature::SSE3 && all[2] == wasmer_compiler::CpuFeature::SSSE3
        && all[3] == wasmer_compiler::CpuFeature::SSE41 && all[4]
        == wasmer_compiler::CpuFeature::SSE42 && all[5] == wasmer_compiler::CpuFeature::POPCNT
        && all[6] == wasmer_compiler::CpuFeature::AVX);
    assert(all[7] == wasmer_compiler::CpuFeature::BMI1 && all[8]
        == wasmer_compiler::CpuFeature::BMI2 && all[9] == wasmer_compiler::CpuFeature::AVX2
        && all[10] == wasmer_compiler::CpuFeature::AVX512DQ && all[11]
        == wasmer_compiler::CpuFeature::AVX512VL && all[12]
        == wasmer_compiler::CpuFeature::AVX512F && all[13] == wasmer_compiler::CpuFeature::LZCNT);
}

/// A set of hardware capabilities. It holds an `enumset::EnumSet` of
/// `wasmer_compiler::CpuFeature`, the set that the compiler's own targets
/// carry. Nothing is known of what is inside but through [`members_of`].
#[verifier::external_body]
#[derive(Debug, PartialEq, Eq, Hash)]
pub struct CpuFeatures {
    set: enumset::EnumSet<wasmer_compiler::CpuFeature>,
}

/// The capabilities that a set holds.
pub uninterp spec fn members_of(set: CpuFeatures) -> Set<wasmer_compiler::CpuFeature>;

impl View for CpuFeatures {
    type V = Set<wasmer_compiler::CpuFeature>;

    open spec fn view(&self) -> Set<wasmer_compiler::CpuFeature> {
        members_of(*self)
    }
}

/// `enumset::EnumSet::new`: the set without members.
#[verifier::external_body]
fn set_new() -> (set: CpuFeatures)
    ensures
        members_of(set) == Set::<wasmer_compiler::CpuFeature>::empty(),
{
    CpuFeatures { set: enumset::EnumSet::new() }
}

/// `enumset::EnumSet::contains`: whether the bit of `feature` is set, which
/// is whether `feature` is a member.
#[verifier::external_body]
fn set_contains(set: &CpuFeatures, feature: wasmer_compiler::CpuFeature) -> (found: bool)
    ensures
        found == members_of(*set).contains(feature),
{
    set.set.contains(feature)
}

/// `enumset::EnumSet::insert`: sets the bit of `feature` and leaves every
/// other bit. What it returns, whether the member is new, is dropped.
#[verifier::external_body]
fn set_insert(set: &mut CpuFeatures, feature: wasmer_compiler::CpuFeature)
    ensures
        members_of(*final(set)) == members_of(*old(set)).insert(feature),
{
    set.set.insert(feature);
}

/// `enumset::EnumSet::remove`: clears the bit of `feature` and leaves every
/// other bit. What it returns, whether the member was there, is dropped.
#[verifier::external_body]
fn set_remove(set: &mut CpuFeatures, feature: wasmer_compiler::CpuFeature)
    ensures
        members_of(*final(set)) == members_of(*old(set)).remove(feature),
{
    set.set.remove(feature);
}

/// `enumset::EnumSet::union`: the set whose bits are those of either set.
#[verifier::external_body]
fn set_union(a: &CpuFeatures, b: &CpuFeatures) -> (both: CpuFeatures)
    ensures
        members_of(both) == members_of(*a).union(members_of(*b)),
{
    CpuFeatures { set: a.set.union(b.set) }
}

/// `enumset::EnumSet::iter`, collected: every member, each once. The order in
/// which the iterator hands them out is left open here.
#[verifier::external_body]
fn set_items(set: &CpuFeatures) -> (items: Vec<wasmer_compiler::CpuFeature>)
    ensures
        items@.no_duplicates(),
        items@.to_set() == members_of(*set),
{
    set.set.iter().collect()
}

/// A copy of the `enumset::EnumSet`, which is `Copy`: the same set.
#[verifier::external_body]
fn set_copy(set: &CpuFeatures) -> (copy: CpuFeatures)
    ensures
        copy == *set,
{
    CpuFeatures { set: set.set }
}

/// The capabilities of the machine that runs this code, as
/// `wasmer_compiler::Target::default` reports them. Nothing is promised of
/// them.
#[verifier::external_body]
pub(crate) fn host_cpu_features() -> (set: CpuFeatures) {
    CpuFeatures { set: *wasmer_compiler::Target::default().cpu_features() }
}

impl CpuFeatures {
    /// The empty set.
    pub fn new() -> (s: CpuFeatures)
        ensures
            s@ == Set::<wasmer_compiler::CpuFeature>::empty(),
    {
        set_new()
    }

    /// Whether `feature` is in the set.
    pub fn contains(&self, feature: wasmer_compiler::CpuFeature) -> (b: bool)
        ensures
            b == self@.contains(feature),
    {
        set_contains(self, feature)
    }

    /// Puts `feature` into the set.
    pub fn insert(&mut self, feature: wasmer_compiler::CpuFeature)
        ensures
            final(self)@ == old(self)@.insert(feature),
    {
        set_insert(self, feature)
    }

    /// Takes `feature` out of the set.
    pub fn remove(&mut self, feature: wasmer_compiler::CpuFeature)
        ensures
            final(self)@ == old(self)@.remove(feature),
    {
        set_remove(self, feature)
    }

    /// The set of the capabilities that are in `self` or in `other`.
    pub fn union(&self, other: &CpuFeatures) -> (s: CpuFeatures)
        ensures
            s@ == self@.union(other@),
    {
        set_union(self, other)
    }

    /// The members of the set, each once, in no promised order.
    pub fn to_vec(&self) -> (v: Vec<wasmer_compiler::CpuFeature>)
        ensures
            v@.no_duplicates(),
            v@.to_set() == self@,
    {
        set_items(self)
    }

    /// A copy of the set.
    pub fn duplicate(&self) -> (s: CpuFeatures)
        ensures
            s == *self,
    {
        set_copy(self)
    }
}

/// The members of a set of capabilities, in the order of
/// [`all_cpu_features`].
pub open spec fn members_in_order(set: Set<wasmer_compiler::CpuFeature>) -> Seq<
    wasmer_compiler::CpuFeature,
> {
    all_cpu_features().filter(|f: wasmer_compiler::CpuFeature| set.contains(f))
}

impl Default for CpuFeatures {
    fn default() -> (s: CpuFeatures)
        ensures
            s@ == Set::<wasmer_compiler::CpuFeature>::empty(),
    {
        CpuFeatures::new()
    }
}

} // verus!
