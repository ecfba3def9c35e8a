//! The configuration of the backend, and the compiler that it produces.

use vstd::prelude::*;
use crate::features::{default_features, Features};
use crate::machine::{
    backend_of, build_machine, feature_string, initialize, plan_machine, planned_error,
    MachineRequest, TargetError,
};
use crate::target::{parse_triple, triple_arch, triple_family, Target};

verus! {

/// What to compile with: the proposals to accept, the target to compile for,
/// and how the backend goes about it.
#[derive(Debug, PartialEq, Eq)]
pub struct LLVMConfig {
    /// Whether NaN results are canonicalised, so that a module computes the
    /// same on every architecture.
    pub enable_nan_canonicalization: bool,
    /// Whether the generated intermediate code is verified.
    pub enable_verifier: bool,
    /// How hard the backend optimises.
    pub opt_level: inkwell::OptimizationLevel,
    /// The proposals that the configuration accepts.
    pub features: Features,
    /// The target that the configuration compiles for.
    pub target: Target,
}

impl LLVMConfig {
    /// The error that stops [`LLVMConfig::target_machine`] before the code
    /// generator is asked, if any does.
    pub open spec fn refusal(&self) -> Option<TargetError> {
        planned_error(
            triple_family(self.target.spec_triple()),
            self.target.spec_cpu_features(),
        )
    }

    /// Whether `request` is what this configuration asks the code generator
    /// for: the backend of the target's architecture, the target's triple,
    /// the architecture's name as the processor, the flags of the target's
    /// capabilities, this configuration's optimisation level, and always
    /// static relocation and the large code model.
    pub open spec fn asks_for(&self, request: MachineRequest) -> bool {
        let target = self.target;
        &&& triple_family(target.spec_triple()) is Some
        &&& Some(request.backend) == backend_of(triple_family(target.spec_triple())->0)
        &&& request.triple@ == target.spec_triple()
        &&& request.cpu@ == triple_arch(target.spec_triple())
        &&& request.features@ == feature_string(target.spec_cpu_features())
        &&& request.opt_level == self.opt_level
        &&& request.reloc_mode == inkwell::targets::RelocMode::Static
        &&& request.code_model == inkwell::targets::CodeModel::Large
    }

    /// The default configuration for the host: NaN canonicalisation on, the
    /// verifier off, the hardest optimisation, the default proposals.
    pub fn new() -> (config: LLVMConfig)
        ensures
            config.enable_nan_canonicalization,
            !config.enable_verifier,
            config.opt_level == inkwell::OptimizationLevel::Aggressive,
            config.features == default_features(),
    {
        LLVMConfig {
            enable_nan_canonicalization: true,
            enable_verifier: false,
            opt_level: inkwell::OptimizationLevel::Aggressive,
            features: Features::new(),
            target: Target::host(),
        }
    }

    /// Generated code never moves: its addresses are fixed.
    fn reloc_mode(&self) -> (mode: inkwell::targets::RelocMode)
        ensures
            mode == inkwell::targets::RelocMode::Static,
    {
        inkwell::targets::RelocMode::Static
    }

    /// Generated code may refer to data at any distance.
    fn code_model(&self) -> (model: inkwell::targets::CodeModel)
        ensures
            model == inkwell::targets::CodeModel::Large,
    {
        inkwell::targets::CodeModel::Large
    }

    /// Decides whether a machine can be built for the current target, and
    /// what the code generator will be asked for. The code generator itself
    /// is not touched.
    pub fn machine_request(&self) -> (r: Result<MachineRequest, TargetError>)
        ensures
            match self.refusal() {
                Some(e) => r == Err::<MachineRequest, TargetError>(e),
                None => r is Ok && self.asks_for(r->Ok_0),
            },
    {
        let arch = parse_triple(self.target.triple());
        plan_machine(
            arch,
            self.target.triple(),
            self.target.cpu_features(),
            self.opt_level,
            self.reloc_mode(),
            self.code_model(),
        )
    }

    /// Builds the machine that emits code for the current target.
    ///
    /// A target that is refused is refused before the code generator is
    /// touched, with the error that [`LLVMConfig::refusal`] gives. Otherwise
    /// the backend is started, which may happen any number of times in one
    /// process, and asked for the machine; if it has none, the target is
    /// unsupported.
    pub fn target_machine(&self) -> (r: Result<inkwell::targets::TargetMachine, TargetError>)
        ensures
            self.refusal() is Some ==> r == Err::<inkwell::targets::TargetMachine, TargetError>(
                self.refusal()->0,
            ),
            r is Err ==> r->Err_0 == TargetError::UnsupportedTarget || self.refusal() == Some(
                r->Err_0,
            ),
    {
        match self.machine_request() {
            Ok(request) => {
                let started = initialize(request.backend);
                build_machine(&request, &started)
            },
            Err(e) => Err(e),
        }
    }

    /// The proposals that this configuration accepts.
    pub fn features(&self) -> (features: &Features)
        ensures
            *features == self.features,
    {
        &self.features
    }

    /// The proposals that this configuration accepts, to change them. A
    /// compiler made before the change keeps what it was made with.
    pub fn features_mut(&mut self) -> (features: &mut Features)
        ensures
            *features == old(self).features,
            final(self).features == *final(features),
            final(self).target == old(self).target,
            final(self).opt_level == old(self).opt_level,
            final(self).enable_verifier == old(self).enable_verifier,
            final(self).enable_nan_canonicalization == old(self).enable_nan_canonicalization,
    {
        &mut self.features
    }

    /// The target that this configuration compiles for.
    pub fn target(&self) -> (target: &Target)
        ensures
            *target == self.target,
    {
        &self.target
    }

    /// The target that this configuration compiles for, to replace it. A
    /// compiler made before the change keeps what it was made with.
    pub fn target_mut(&mut self) -> (target: &mut Target)
        ensures
            *target == old(self).target,
            final(self).target == *final(target),
            final(self).features == old(self).features,
            final(self).opt_level == old(self).opt_level,
            final(self).enable_verifier == old(self).enable_verifier,
            final(self).enable_nan_canonicalization == old(self).enable_nan_canonicalization,
    {
        &mut self.target
    }

    /// A copy of this configuration.
    pub fn duplicate(&self) -> (config: LLVMConfig)
        ensures
            config == *self,
    {
        LLVMConfig {
            enable_nan_canonicalization: self.enable_nan_canonicalization,
            enable_verifier: self.enable_verifier,
            opt_level: self.opt_level,
            features: self.features,
            target: self.target.duplicate(),
        }
    }

    /// Makes a compiler that is bound to this configuration as it is now.
    /// The configuration is left as it was, and the compiler holds a copy of
    /// its own: every call gives a new compiler, and no later change of the
    /// configuration reaches a compiler that was made before.
    pub fn compiler(&self) -> (compiler: LLVMCompiler)
        ensures
            compiler.spec_config() == *self,
    {
        LLVMCompiler::new(self)
    }
}

impl Default for LLVMConfig {
    fn default() -> (config: LLVMConfig)
        ensures
            config.enable_nan_canonicalization,
            !config.enable_verifier,
            config.opt_level == inkwell::OptimizationLevel::Aggressive,
            config.features == default_features(),
    {
        LLVMConfig::new()
    }
}

/// A compiler of the backend: a configuration frozen at the moment the
/// compiler was made.
#[derive(Debug, PartialEq, Eq)]
pub struct LLVMCompiler {
    config: LLVMConfig,
}

impl LLVMCompiler {
    /// The configuration that the compiler was made with.
    pub closed spec fn spec_config(&self) -> LLVMConfig {
        self.config
    }

    /// A compiler bound to a copy of `config`.
    pub fn new(config: &LLVMConfig) -> (compiler: LLVMCompiler)
        ensures
            compiler.spec_config() == *config,
    {
        LLVMCompiler { config: config.duplicate() }
    }

    /// The configuration that the compiler was made with.
    pub fn config(&self) -> (config: &LLVMConfig)
        ensures
            *config == self.spec_config(),
    {
        &self.config
    }
}

} // verus!
