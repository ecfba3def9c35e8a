//! The target machine builder: from a target to the machine that emits code
//! for it.
//!
//! Building goes in three steps. [`plan_machine`] decides, without touching
//! the code generator, whether the target can be served and with which
//! settings. [`initialize`] starts the backend that the plan names, and
//! [`build_machine`] asks the started backend for the machine.

use vstd::prelude::*;
use itertools::Itertools;
use crate::features::{
    all_cpu_features, feature_index, lemma_all_cpu_features, members_in_order, CpuFeatures,
};
use crate::target::{ArchFamily, TripleArch};

verus! {

/// `inkwell::OptimizationLevel`: how hard the code generator optimises. An
/// enum of four plain variants, which verified code names directly.
#[verifier::external_type_specification]
pub struct ExOptimizationLevel(inkwell::OptimizationLevel);

/// `inkwell::targets::RelocMode`: how generated code refers to addresses. An
/// enum of four plain variants, which verified code names directly.
#[verifier::external_type_specification]
pub struct ExRelocMode(inkwell::targets::RelocMode);

/// `inkwell::targets::CodeModel`: how far references in generated code may
/// reach. An enum of six plain variants, which verified code names directly.
#[verifier::external_type_specification]
pub struct ExCodeModel(inkwell::targets::CodeModel);

/// `inkwell::targets::TargetMachine`: the handle of a machine that emits
/// code. Nothing is known of what it holds; it is only carried through.
#[verifier::external_type_specification]
#[verifier::external_body]
pub struct ExTargetMachine(inkwell::targets::TargetMachine);

/// A code generator that can be started.
#[derive(Clone, Copy, Debug, PartialEq, Eq, Hash, Structural)]
pub enum Backend {
    /// The generator for x86.
    X86,
    /// The generator for AArch64.
    AArch64,
}

/// Why no machine can be built for a target.
#[derive(Clone, Copy, Debug, PartialEq, Eq, Hash, Structural)]
pub enum TargetError {
    /// No backend serves the architecture of the target.
    UnsupportedTarget,
    /// The target lacks a capability that the backend cannot do without.
    MissingRequiredFeature,
}

impl TargetError {
    /// What went wrong with the target of triple `triple`, in words.
    pub open spec fn spec_message(self, triple: Seq<char>) -> Seq<char> {
        match self {
            TargetError::UnsupportedTarget => "target "@ + triple + " not supported"@,
            TargetError::MissingRequiredFeature => "The target needs to support AVX2"@,
        }
    }

    /// What went wrong with the target of triple `triple`, in words.
    pub fn message(&self, triple: &str) -> (s: String)
        ensures
            s@ == self.spec_message(triple@),
    {
        match self {
            TargetError::UnsupportedTarget => "target ".to_owned().concat(triple).concat(
                " not supported",
            ),
            TargetError::MissingRequiredFeature => "The target needs to support AVX2".to_owned(),
        }
    }
}

/// The backend that serves an architecture family, if any does. 64-bit Arm
/// has its own backend, and 32-bit Arm is handed to it as well.
pub open spec fn backend_of(family: ArchFamily) -> Option<Backend> {
    match family {
        ArchFamily::X86_64 => Some(Backend::X86),
        ArchFamily::Aarch64 => Some(Backend::AArch64),
        ArchFamily::Arm => Some(Backend::AArch64),
        ArchFamily::Other => None,
    }
}

/// The capabilities that every target must have.
pub open spec fn mandatory_features() -> Set<wasmer_compiler::CpuFeature> {
    set![wasmer_compiler::CpuFeature::AVX2]
}

/// Whether a set of capabilities holds every mandatory one.
pub open spec fn has_mandatory_features(features: Set<wasmer_compiler::CpuFeature>) -> bool {
    mandatory_features().subset_of(features)
}

/// The flag that switches a capability on in the code generator, for the
/// capabilities that it has a flag for.
pub open spec fn llvm_flag(feature: wasmer_compiler::CpuFeature) -> Option<Seq<char>> {
    match feature {
        wasmer_compiler::CpuFeature::AVX2 => Some("+avx2"@),
        _ => None,
    }
}

/// The flags of the capabilities of a set, in the order of the capabilities;
/// a capability without a flag is left out.
pub open spec fn feature_flags(features: Set<wasmer_compiler::CpuFeature>) -> Seq<Seq<char>> {
    members_in_order(features).filter_map(|f: wasmer_compiler::CpuFeature| llvm_flag(f))
}

/// `parts` one after the other, with `sep` between each two.
pub open spec fn joined(parts: Seq<Seq<char>>, sep: Seq<char>) -> Seq<char>
    decreases parts.len(),
{
    if parts.len() == 0 {
        Seq::empty()
    } else if parts.len() == 1 {
        parts[0]
    } else {
        joined(parts.drop_last(), sep) + sep + parts.last()
    }
}

/// The feature string that the code generator is given for a set of
/// capabilities: their flags, separated by single spaces.
pub open spec fn feature_string(features: Set<wasmer_compiler::CpuFeature>) -> Seq<char> {
    joined(feature_flags(features), " "@)
}

/// The flags of the capabilities among the first `k` of all capabilities
/// that satisfy `keep`: the flag of AVX2 once that capability is among them,
/// and nothing else.
proof fn lemma_flags_of_prefix(
    keep: spec_fn(wasmer_compiler::CpuFeature) -> bool,
    flag: spec_fn(wasmer_compiler::CpuFeature) -> Option<Seq<char>>,
    k: int,
)
    requires
        0 <= k <= 14,
        forall|f: wasmer_compiler::CpuFeature| #[trigger] flag(f) == llvm_flag(f),
    ensures
        all_cpu_features().take(k).filter(keep).filter_map(flag) == if k > 9 && keep(
            wasmer_compiler::CpuFeature::AVX2,
        ) {
            seq!["+avx2"@]
        } else {
            Seq::<Seq<char>>::empty()
        },
    decreases k,
{
    reveal(Seq::filter);
    lemma_all_cpu_features();
    let all = all_cpu_features();
    if k > 0 {
        lemma_flags_of_prefix(keep, flag, k - 1);
        let shorter = all.take(k - 1).filter(keep);
        let last = all[k - 1];
        assert(all.take(k).drop_last() =~= all.take(k - 1));
        assert(all.take(k).last() == last);
        assert(last == wasmer_compiler::CpuFeature::AVX2 <==> k - 1 == 9) by {
            assert(feature_index(last) == k - 1);
        }
        if keep(last) {
            assert(all.take(k).filter(keep) == shorter.push(last));
            assert(shorter.push(last).drop_last() =~= shorter);
            assert(shorter.push(last).last() == last);
            if last == wasmer_compiler::CpuFeature::AVX2 {
                assert(shorter.filter_map(flag) + seq!["+avx2"@] =~= seq!["+avx2"@]);
            }
        }
    } else {
        assert(all.take(0) =~= Seq::<wasmer_compiler::CpuFeature>::empty());
    }
}

/// The feature string of a set of capabilities is `+avx2` where the set holds
/// AVX2, and empty where it does not: no other capability has a flag. So
/// every target that is accepted gets the feature string `+avx2`.
pub proof fn lemma_feature_string(features: Set<wasmer_compiler::CpuFeature>)
    ensures
        feature_string(features) == if features.contains(wasmer_compiler::CpuFeature::AVX2) {
            "+avx2"@
        } else {
            Seq::<char>::empty()
        },
        has_mandatory_features(features) ==> feature_string(features) == "+avx2"@,
{
    let keep = |f: wasmer_compiler::CpuFeature| features.contains(f);
    let flag = |f: wasmer_compiler::CpuFeature| llvm_flag(f);
    lemma_flags_of_prefix(keep, flag, 14);
    lemma_all_cpu_features();
    assert(all_cpu_features().take(14) =~= all_cpu_features());
    assert(feature_flags(features) == all_cpu_features().filter(keep).filter_map(flag));
}

/// The strings of `parts`, as sequences of characters.
pub open spec fn views_of(parts: Seq<&'static str>) -> Seq<Seq<char>> {
    Seq::new(parts.len(), |i: int| parts[i]@)
}

/// `itertools::Itertools::join` on the items of a vector of strings: the
/// first item, then for every further item the separator and the item; the
/// empty string for no item.
#[verifier::external_body]
fn join(parts: &Vec<&'static str>, sep: &str) -> (s: String)
    ensures
        s@ == joined(views_of(parts@), sep@),
{
    parts.iter().join(sep)
}

/// The flag of a capability, if it has one.
pub fn flag_of(feature: wasmer_compiler::CpuFeature) -> (flag: Option<&'static str>)
    ensures
        flag is Some <==> llvm_flag(feature) is Some,
        flag is Some ==> flag->0@ == llvm_flag(feature)->0,
{
    match feature {
        wasmer_compiler::CpuFeature::AVX2 => Some("+avx2"),
        _ => None,
    }
}

/// The flags of a run of capabilities in which none stands twice: the flag
/// of AVX2 where it is among them, and nothing else. So the order in which a
/// set hands its members out does not show in the feature string.
proof fn lemma_flags_of_members(
    members: Seq<wasmer_compiler::CpuFeature>,
    flag: spec_fn(wasmer_compiler::CpuFeature) -> Option<Seq<char>>,
)
    requires
        members.no_duplicates(),
        forall|f: wasmer_compiler::CpuFeature| #[trigger] flag(f) == llvm_flag(f),
    ensures
        members.filter_map(flag) == if members.contains(wasmer_compiler::CpuFeature::AVX2) {
            seq!["+avx2"@]
        } else {
            Seq::<Seq<char>>::empty()
        },
    decreases members.len(),
{
    let avx2 = wasmer_compiler::CpuFeature::AVX2;
    if members.len() > 0 {
        let init = members.drop_last();
        let last = members.last();
        lemma_flags_of_members(init, flag);
        if last == avx2 {
            if init.contains(avx2) {
                let j = choose|j: int| 0 <= j < init.len() && init[j] == avx2;
                assert(members[j] == members[members.len() - 1]);
            }
            assert(members.contains(avx2)) by {
                assert(members[members.len() - 1] == avx2);
            }
            assert(init.filter_map(flag) + seq!["+avx2"@] =~= seq!["+avx2"@]);
        } else {
            if members.contains(avx2) {
                let j = choose|j: int| 0 <= j < members.len() && members[j] == avx2;
                assert(init[j] == avx2);
            }
            if init.contains(avx2) {
                let j = choose|j: int| 0 <= j < init.len() && init[j] == avx2;
                assert(members[j] == avx2);
            }
        }
    }
}

/// The feature string of a set of capabilities.
pub fn make_feature_string(features: &CpuFeatures) -> (s: String)
    ensures
        s@ == feature_string(features@),
{
    let members = features.to_vec();
    let mut flags: Vec<&'static str> = Vec::new();
    let mut i: usize = 0;
    let ghost flag = |f: wasmer_compiler::CpuFeature| llvm_flag(f);
    proof {
        assert(members@.take(0) =~= Seq::<wasmer_compiler::CpuFeature>::empty());
    }
    while i < members.len()
        invariant
            0 <= i <= members@.len(),
            flag == (|f: wasmer_compiler::CpuFeature| llvm_flag(f)),
            views_of(flags@) == members@.take(i as int).filter_map(flag),
        decreases members@.len() - i,
    {
        proof {
            assert(members@.take(i + 1).drop_last() =~= members@.take(i as int));
            assert(members@.take(i + 1).last() == members@[i as int]);
        }
        let ghost before = flags@;
        match flag_of(members[i]) {
            Some(text) => {
                flags.push(text);
                assert(views_of(flags@) =~= views_of(before) + seq![text@]);
            },
            None => {},
        }
        i = i + 1;
    }
    proof {
        assert(members@.take(i as int) =~= members@);
        lemma_flags_of_members(members@, flag);
        lemma_feature_string(features@);
        assert(members@.contains(wasmer_compiler::CpuFeature::AVX2) == features@.contains(
            wasmer_compiler::CpuFeature::AVX2,
        ));
    }
    join(&flags, " ")
}

/// Whether a set of capabilities holds every mandatory one.
pub fn check_mandatory_features(features: &CpuFeatures) -> (ok: bool)
    ensures
        ok == has_mandatory_features(features@),
{
    features.contains(wasmer_compiler::CpuFeature::AVX2)
}

/// The settings that are the same for every machine: generated code never
/// moves, so addresses are static, and it may refer to data at any distance,
/// so the code model is the large one.
pub open spec fn follows_policy(
    reloc_mode: inkwell::targets::RelocMode,
    code_model: inkwell::targets::CodeModel,
) -> bool {
    reloc_mode == inkwell::targets::RelocMode::Static && code_model
        == inkwell::targets::CodeModel::Large
}

/// Everything that the code generator is told when a machine is made.
#[derive(Debug, PartialEq, Eq)]
pub struct MachineRequest {
    /// The backend to start.
    pub backend: Backend,
    /// The triple of the target.
    pub triple: String,
    /// The processor to generate code for.
    pub cpu: String,
    /// The feature string.
    pub features: String,
    /// How hard to optimise.
    pub opt_level: inkwell::OptimizationLevel,
    /// How code refers to addresses.
    pub reloc_mode: inkwell::targets::RelocMode,
    /// How far such references may reach.
    pub code_model: inkwell::targets::CodeModel,
}

/// The family of an architecture that may be missing.
pub open spec fn family_of(arch: Option<TripleArch>) -> Option<ArchFamily> {
    match arch {
        Some(arch) => Some(arch.family),
        None => None,
    }
}

/// The error that stops the building of a machine for a target whose triple
/// has an architecture of family `family` (`None` for a triple that is none)
/// and whose capabilities are `features`; `None` where nothing stops it.
///
/// The architecture is looked at first: a target that no backend serves is
/// unsupported whatever its capabilities are. Only then are the mandatory
/// capabilities asked for.
pub open spec fn planned_error(family: Option<ArchFamily>, features: Set<wasmer_compiler::CpuFeature>) -> Option<
    TargetError,
> {
    if family is None || backend_of(family->0) is None {
        Some(TargetError::UnsupportedTarget)
    } else if !has_mandatory_features(features) {
        Some(TargetError::MissingRequiredFeature)
    } else {
        None
    }
}

/// For an architecture that a backend serves, a machine is planned exactly
/// when every mandatory capability is there; without any one of them the
/// answer is that a required feature is missing.
pub proof fn lemma_supported_target_needs_mandatory_features(
    family: ArchFamily,
    features: Set<wasmer_compiler::CpuFeature>,
    removed: wasmer_compiler::CpuFeature,
)
    requires
        backend_of(family) is Some,
    ensures
        planned_error(Some(family), features) is None <==> has_mandatory_features(features),
        !has_mandatory_features(features) ==> planned_error(Some(family), features) == Some(
            TargetError::MissingRequiredFeature,
        ),
        mandatory_features().contains(removed) ==> planned_error(
            Some(family),
            features.remove(removed),
        ) == Some(TargetError::MissingRequiredFeature),
{
    if mandatory_features().contains(removed) {
        assert(!features.remove(removed).contains(removed));
    }
}

/// A target that no backend serves is unsupported, and this is found before
/// any capability is looked at: the answer is the same for every set of
/// capabilities.
pub proof fn lemma_unsupported_target_comes_first(
    family: Option<ArchFamily>,
    features: Set<wasmer_compiler::CpuFeature>,
)
    requires
        family is None || backend_of(family->0) is None,
    ensures
        planned_error(family, features) == Some(TargetError::UnsupportedTarget),
{
}

/// Decides whether a machine can be built, and with which settings.
///
/// `arch` is the architecture of the target's triple, `None` where the triple
/// is none; `triple` and `features` are the target's own.
pub fn plan_machine(
    arch: Option<TripleArch>,
    triple: &str,
    features: &CpuFeatures,
    opt_level: inkwell::OptimizationLevel,
    reloc_mode: inkwell::targets::RelocMode,
    code_model: inkwell::targets::CodeModel,
) -> (r: Result<MachineRequest, TargetError>)
    ensures
        match planned_error(family_of(arch), features@) {
            Some(e) => r == Err::<MachineRequest, TargetError>(e),
            None => r is Ok && {
                let request = r->Ok_0;
                &&& Some(request.backend) == backend_of(arch->0.family)
                &&& request.triple@ == triple@
                &&& request.cpu@ == arch->0.name@
                &&& request.features@ == feature_string(features@)
                &&& request.opt_level == opt_level
                &&& request.reloc_mode == reloc_mode
                &&& request.code_model == code_model
            },
        },
{
    let arch = match arch {
        Some(arch) => arch,
        None => {
            return Err(TargetError::UnsupportedTarget);
        },
    };
    let backend = match arch.family {
        ArchFamily::X86_64 => Backend::X86,
        ArchFamily::Aarch64 => Backend::AArch64,
        ArchFamily::Arm => Backend::AArch64,
        ArchFamily::Other => {
            return Err(TargetError::UnsupportedTarget);
        },
    };
    if !check_mandatory_features(features) {
        return Err(TargetError::MissingRequiredFeature);
    }
    Ok(
        MachineRequest {
            backend,
            triple: triple.to_owned(),
            cpu: arch.name,
            features: make_feature_string(features),
            opt_level,
            reloc_mode,
            code_model,
        },
    )
}

impl Backend {
    /// The name under which the code generator knows the backend.
    pub open spec fn spec_llvm_name(self) -> Seq<char> {
        match self {
            Backend::X86 => "x86-64"@,
            Backend::AArch64 => "aarch64"@,
        }
    }

    /// The name under which the code generator knows the backend.
    pub fn llvm_name(self) -> (name: &'static str)
        ensures
            name@ == self.spec_llvm_name(),
    {
        match self {
            Backend::X86 => "x86-64",
            Backend::AArch64 => "aarch64",
        }
    }
}

/// `inkwell::targets::Target::initialize_x86` with every part of the backend
/// switched on, which is `InitializationConfig::default()`. It registers the
/// x86 backend with the code generator for the whole process; calling it
/// again changes nothing.
#[verifier::external_body]
fn initialize_x86() {
    inkwell::targets::Target::initialize_x86(&inkwell::targets::InitializationConfig::default());
}

/// `inkwell::targets::Target::initialize_aarch64` with every part of the
/// backend switched on, which is `InitializationConfig::default()`. It
/// registers the AArch64 backend with the code generator for the whole
/// process; calling it again changes nothing.
#[verifier::external_body]
fn initialize_aarch64() {
    inkwell::targets::Target::initialize_aarch64(
        &inkwell::targets::InitializationConfig::default(),
    );
}

/// `inkwell::targets::Target::from_name` for the backend called `name`, which
/// is the name of the request's backend, then `create_target_machine` on what
/// it found, with the settings of `request`, whose relocation mode and code
/// model are the fixed ones. `None` where the code generator knows no backend
/// of that name, which depends on what was registered before, or makes no
/// machine. Nothing is promised of the machine.
#[verifier::external_body]
fn create_target_machine(name: &str, request: &MachineRequest) -> (made: Option<
    inkwell::targets::TargetMachine,
>)
    requires
        name@ == request.backend.spec_llvm_name(),
        follows_policy(request.reloc_mode, request.code_model),
{
    let target = inkwell::targets::Target::from_name(name)?;
    target.create_target_machine(
        &inkwell::targets::TargetTriple::create(request.triple.as_str()),
        request.cpu.as_str(),
        request.features.as_str(),
        request.opt_level,
        request.reloc_mode,
        request.code_model,
    )
}

/// The mark of a backend that has been started. Only [`initialize`] hands
/// one out, so whoever holds one knows that the backend is registered with
/// the code generator; and since a started backend stays started for the
/// life of the process, the mark can be copied and kept.
#[derive(Clone, Copy, Debug, PartialEq, Eq, Hash)]
pub struct Started {
    backend: Backend,
}

impl Started {
    /// The backend that was started.
    pub closed spec fn spec_backend(&self) -> Backend {
        self.backend
    }

    /// The backend that was started.
    pub fn backend(&self) -> (backend: Backend)
        ensures
            backend == self.spec_backend(),
    {
        self.backend
    }
}

/// Starts a backend. Starting is process-wide and can be repeated freely: a
/// backend that is started stays started, and starting it again gives the
/// same mark.
pub fn initialize(backend: Backend) -> (started: Started)
    ensures
        started.spec_backend() == backend,
{
    match backend {
        Backend::X86 => initialize_x86(),
        Backend::AArch64 => initialize_aarch64(),
    }
    Started { backend }
}

/// What building a machine answers when the code generator has answered with
/// `made`: the machine, or that the target is unsupported where there is
/// none.
pub fn machine_or_unsupported(made: Option<inkwell::targets::TargetMachine>) -> (r: Result<
    inkwell::targets::TargetMachine,
    TargetError,
>)
    ensures
        made is Some ==> r == Ok::<inkwell::targets::TargetMachine, TargetError>(made->0),
        made is None ==> r == Err::<inkwell::targets::TargetMachine, TargetError>(
            TargetError::UnsupportedTarget,
        ),
{
    match made {
        Some(machine) => Ok(machine),
        None => Err(TargetError::UnsupportedTarget),
    }
}

/// Asks the started backend of `request` for the machine. The request must
/// hold the fixed relocation mode and code model. The only error is that the
/// code generator has no such machine.
pub fn build_machine(request: &MachineRequest, started: &Started) -> (r: Result<
    inkwell::targets::TargetMachine,
    TargetError,
>)
    requires
        started.spec_backend() == request.backend,
        follows_policy(request.reloc_mode, request.code_model),
    ensures
        r is Err ==> r->Err_0 == TargetError::UnsupportedTarget,
{
    machine_or_unsupported(create_target_machine(started.backend().llvm_name(), request))
}

} // verus!
