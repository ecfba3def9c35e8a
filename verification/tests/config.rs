use inkwell::targets::{CodeModel, RelocMode};
use inkwell::OptimizationLevel;
use llvm_backend::config::{LLVMCompiler, LLVMConfig};
use llvm_backend::features::{CpuFeatures, Features};
use llvm_backend::machine::{
    build_machine, check_mandatory_features, flag_of, initialize, make_feature_string,
    plan_machine, Backend, MachineRequest, TargetError,
};
use llvm_backend::target::{ArchFamily, Target, TripleArch};
use wasmer_compiler::CpuFeature;

fn all_features() -> Vec<CpuFeature> {
    enumset::EnumSet::<CpuFeature>::all().iter().collect()
}

fn features_of(list: &[CpuFeature]) -> CpuFeatures {
    let mut set = CpuFeatures::new();
    for f in list {
        set.insert(*f);
    }
    set
}

fn config_for(triple: &str, list: &[CpuFeature]) -> LLVMConfig {
    let mut config = LLVMConfig::new();
    *config.target_mut() = Target::new(triple.to_string(), features_of(list));
    config
}

#[test]
fn new_configuration_has_the_documented_defaults() {
    let config = LLVMConfig::new();
    assert!(config.enable_nan_canonicalization);
    assert!(!config.enable_verifier);
    assert_eq!(config.opt_level, OptimizationLevel::Aggressive);
    assert_eq!(*config.features(), Features::new());
    assert_eq!(LLVMConfig::default(), config);
}

#[test]
fn default_proposals_are_bulk_memory_and_multi_value() {
    let f = Features::default();
    assert_eq!(
        f,
        Features {
            threads: false,
            reference_types: false,
            simd: false,
            bulk_memory: true,
            multi_value: true,
            tail_call: false,
            module_linking: false,
            multi_memory: false,
            memory64: false,
        }
    );
}

#[test]
fn default_target_is_the_host() {
    let host = wasmer_compiler::Target::default();
    let target = Target::host();
    assert_eq!(target.triple(), host.triple().to_string());
    for f in all_features() {
        assert_eq!(
            target.cpu_features().contains(f),
            host.cpu_features().contains(f),
            "{:?}",
            f
        );
    }
    assert_eq!(Target::default(), target);
}

#[test]
fn x86_64_with_avx2_is_planned() {
    let config = config_for("x86_64-unknown-linux-gnu", &[CpuFeature::SSE2, CpuFeature::AVX2]);
    assert_eq!(
        config.machine_request(),
        Ok(MachineRequest {
            backend: Backend::X86,
            triple: "x86_64-unknown-linux-gnu".to_string(),
            cpu: "x86_64".to_string(),
            features: "+avx2".to_string(),
            opt_level: OptimizationLevel::Aggressive,
            reloc_mode: RelocMode::Static,
            code_model: CodeModel::Large,
        })
    );
}

#[test]
fn aarch64_is_served_by_the_aarch64_backend() {
    let config = config_for("aarch64-unknown-linux-gnu", &[CpuFeature::AVX2]);
    assert_eq!(
        config.machine_request(),
        Ok(MachineRequest {
            backend: Backend::AArch64,
            triple: "aarch64-unknown-linux-gnu".to_string(),
            cpu: "aarch64".to_string(),
            features: "+avx2".to_string(),
            opt_level: OptimizationLevel::Aggressive,
            reloc_mode: RelocMode::Static,
            code_model: CodeModel::Large,
        })
    );
    let machine = config.target_machine().unwrap();
    assert_eq!(machine.get_target().get_name().to_str(), Ok("aarch64"));
    assert_eq!(
        machine.get_triple().as_str().to_str(),
        Ok("aarch64-unknown-linux-gnu")
    );
}

#[test]
fn aarch64_without_avx2_misses_a_required_feature() {
    let config = config_for("aarch64-unknown-linux-gnu", &[CpuFeature::SSE2]);
    assert_eq!(
        config.machine_request(),
        Err(TargetError::MissingRequiredFeature)
    );
    assert_eq!(
        config.target_machine().err(),
        Some(TargetError::MissingRequiredFeature)
    );
}

#[test]
fn arm_of_32_bits_is_handed_to_the_aarch64_backend_too() {
    let config = config_for("armv7-unknown-linux-gnueabihf", &[CpuFeature::AVX2]);
    let request = config.machine_request().unwrap();
    assert_eq!(request.backend, Backend::AArch64);
    assert_eq!(request.cpu, "armv7");
    assert_eq!(request.triple, "armv7-unknown-linux-gnueabihf");
}

#[test]
fn request_follows_the_optimisation_level() {
    let mut config = config_for("x86_64-apple-darwin", &[CpuFeature::AVX2]);
    config.opt_level = OptimizationLevel::Less;
    let request = config.machine_request().unwrap();
    assert_eq!(request.opt_level, OptimizationLevel::Less);
    assert_eq!(request.reloc_mode, RelocMode::Static);
    assert_eq!(request.code_model, CodeModel::Large);
}

#[test]
fn missing_avx2_is_reported() {
    let all_but_avx2: Vec<CpuFeature> = all_features()
        .into_iter()
        .filter(|f| *f != CpuFeature::AVX2)
        .collect();
    for list in [&[][..], &[CpuFeature::SSE2][..], &all_but_avx2[..]] {
        let config = config_for("x86_64-unknown-linux-gnu", list);
        assert_eq!(
            config.machine_request(),
            Err(TargetError::MissingRequiredFeature)
        );
        assert_eq!(
            config.target_machine().err(),
            Some(TargetError::MissingRequiredFeature)
        );
    }
}

#[test]
fn removing_the_mandatory_feature_flips_success_to_an_error() {
    let mut features = features_of(&all_features());
    let config = config_for("x86_64-unknown-linux-gnu", &all_features());
    assert!(config.machine_request().is_ok());
    features.remove(CpuFeature::AVX2);
    let mut config = config;
    *config.target_mut() = Target::new("x86_64-unknown-linux-gnu".to_string(), features);
    assert_eq!(
        config.machine_request(),
        Err(TargetError::MissingRequiredFeature)
    );
}

#[test]
fn unrecognised_architecture_is_unsupported_before_any_feature_check() {
    for triple in [
        "riscv64gc-unknown-linux-gnu",
        "powerpc64-unknown-linux-gnu",
        "wasm32-unknown-unknown",
        "i686-unknown-linux-gnu",
        "pdp11-unknown-none",
        "",
        "not a triple",
    ] {
        for list in [&[][..], &[CpuFeature::AVX2][..]] {
            let config = config_for(triple, list);
            assert_eq!(
                config.machine_request(),
                Err(TargetError::UnsupportedTarget),
                "{:?}",
                triple
            );
            assert_eq!(
                config.target_machine().err(),
                Some(TargetError::UnsupportedTarget)
            );
        }
    }
}

#[test]
fn plan_takes_the_architecture_as_given() {
    let features = features_of(&[CpuFeature::AVX2]);
    let plan = |arch: Option<TripleArch>, features: &CpuFeatures| {
        plan_machine(
            arch,
            "some-triple",
            features,
            OptimizationLevel::Default,
            RelocMode::PIC,
            CodeModel::Small,
        )
    };
    let arch = |family| Some(TripleArch { family, name: "name".to_string() });
    assert_eq!(
        plan(arch(ArchFamily::X86_64), &features),
        Ok(MachineRequest {
            backend: Backend::X86,
            triple: "some-triple".to_string(),
            cpu: "name".to_string(),
            features: "+avx2".to_string(),
            opt_level: OptimizationLevel::Default,
            reloc_mode: RelocMode::PIC,
            code_model: CodeModel::Small,
        })
    );
    assert_eq!(
        plan(arch(ArchFamily::Aarch64), &features).map(|r| r.backend),
        Ok(Backend::AArch64)
    );
    assert_eq!(
        plan(arch(ArchFamily::Arm), &features).map(|r| r.backend),
        Ok(Backend::AArch64)
    );
    assert_eq!(
        plan(arch(ArchFamily::Aarch64), &CpuFeatures::new()),
        Err(TargetError::MissingRequiredFeature)
    );
    assert_eq!(
        plan(arch(ArchFamily::Other), &features),
        Err(TargetError::UnsupportedTarget)
    );
    assert_eq!(plan(None, &features), Err(TargetError::UnsupportedTarget));
    assert_eq!(
        plan(arch(ArchFamily::Other), &CpuFeatures::new()),
        Err(TargetError::UnsupportedTarget)
    );
    assert_eq!(
        plan(arch(ArchFamily::X86_64), &CpuFeatures::new()),
        Err(TargetError::MissingRequiredFeature)
    );
}

#[test]
fn feature_string_holds_only_known_flags() {
    assert_eq!(make_feature_string(&CpuFeatures::new()), "");
    assert_eq!(make_feature_string(&features_of(&[CpuFeature::AVX2])), "+avx2");
    assert_eq!(
        make_feature_string(&features_of(&[CpuFeature::SSE2, CpuFeature::LZCNT])),
        ""
    );
    assert_eq!(make_feature_string(&features_of(&all_features())), "+avx2");
    assert_eq!(flag_of(CpuFeature::AVX2), Some("+avx2"));
    assert_eq!(flag_of(CpuFeature::AVX), None);
}

#[test]
fn mandatory_feature_is_avx2() {
    assert!(check_mandatory_features(&features_of(&[CpuFeature::AVX2])));
    assert!(!check_mandatory_features(&features_of(&[CpuFeature::AVX])));
    assert!(!check_mandatory_features(&CpuFeatures::new()));
}

#[test]
fn machine_is_built_for_x86_64_with_avx2() {
    let config = config_for("x86_64-unknown-linux-gnu", &[CpuFeature::AVX2]);
    let machine = config.target_machine().unwrap();
    assert_eq!(
        machine.get_triple().as_str().to_str(),
        Ok("x86_64-unknown-linux-gnu")
    );
    assert_eq!(machine.get_feature_string().to_str(), Ok("+avx2"));
    assert_eq!(machine.get_target().get_name().to_str(), Ok("x86-64"));
}

#[test]
fn machine_is_built_by_the_backend_of_the_request() {
    let request = MachineRequest {
        backend: Backend::AArch64,
        triple: "aarch64-unknown-linux-gnu".to_string(),
        cpu: "generic".to_string(),
        features: String::new(),
        opt_level: OptimizationLevel::None,
        reloc_mode: RelocMode::Static,
        code_model: CodeModel::Large,
    };
    let started = initialize(Backend::AArch64);
    assert_eq!(started.backend(), Backend::AArch64);
    assert_eq!(initialize(Backend::AArch64), started);
    let machine = build_machine(&request, &started).unwrap();
    assert_eq!(machine.get_target().get_name().to_str(), Ok("aarch64"));
    assert_eq!(machine.get_cpu().to_str(), Ok("generic"));
}

#[test]
fn building_twice_is_harmless() {
    let config = config_for("x86_64-unknown-linux-gnu", &[CpuFeature::AVX2]);
    assert!(config.target_machine().is_ok());
    assert!(config.target_machine().is_ok());
}

#[test]
fn error_messages() {
    assert_eq!(
        TargetError::UnsupportedTarget.message("mips-unknown-linux-gnu"),
        "target mips-unknown-linux-gnu not supported"
    );
    assert_eq!(
        TargetError::MissingRequiredFeature.message("x86_64-unknown-linux-gnu"),
        "The target needs to support AVX2"
    );
}

#[test]
fn accessors_read_and_write_the_configuration() {
    let mut config = LLVMConfig::new();
    config.features_mut().simd = true;
    assert!(config.features().simd);
    assert!(config.features().bulk_memory);
    *config.target_mut() = Target::new("x86_64-apple-darwin".to_string(), CpuFeatures::new());
    assert_eq!(config.target().triple(), "x86_64-apple-darwin");
    assert!(!config.target().cpu_features().contains(CpuFeature::AVX2));
}

#[test]
fn compiler_keeps_the_configuration_it_was_made_with() {
    let mut config = config_for("x86_64-unknown-linux-gnu", &[CpuFeature::AVX2]);
    let first: LLVMCompiler = config.compiler();
    let before = config.duplicate();
    assert_eq!(*first.config(), before);

    config.features_mut().threads = true;
    config.opt_level = OptimizationLevel::None;
    *config.target_mut() = Target::new("armv7-unknown-linux-gnueabihf".to_string(), CpuFeatures::new());
    let second = config.compiler();

    assert_eq!(*first.config(), before);
    assert!(!first.config().features().threads);
    assert_eq!(first.config().target().triple(), "x86_64-unknown-linux-gnu");
    assert_eq!(*second.config(), config);
    assert_ne!(first, second);
}

#[test]
fn compiler_can_be_made_twice_from_one_configuration() {
    let config = LLVMConfig::new();
    let first = config.compiler();
    let second = config.compiler();
    assert_eq!(first, second);
    assert_eq!(*first.config(), config);
    assert_eq!(LLVMCompiler::new(&config), first);
}
