//! The target of a compilation: which machine the code is for, and what that
//! machine can do.

use vstd::prelude::*;
use crate::features::{host_cpu_features, CpuFeatures};

verus! {

/// The architectures that the dispatch to a backend tells apart.
#[derive(Clone, Copy, Debug, PartialEq, Eq, Hash, Structural)]
pub enum ArchFamily {
    /// 64-bit x86.
    X86_64,
    /// 64-bit Arm.
    Aarch64,
    /// Arm, in any of its 32-bit versions.
    Arm,
    /// Any other architecture.
    Other,
}

/// The architecture family of the triple that `triple` spells, or `None` where
/// `triple` spells no triple: what `target_lexicon` makes of it.
pub uninterp spec fn triple_family(triple: Seq<char>) -> Option<ArchFamily>;

/// The name of the architecture of the triple that `triple` spells, as
/// `target_lexicon` prints it.
pub uninterp spec fn triple_arch(triple: Seq<char>) -> Seq<char>;

/// The architecture of a triple.
#[derive(Clone, Debug, PartialEq, Eq, Hash)]
pub struct TripleArch {
    /// The family of the architecture.
    pub family: ArchFamily,
    /// The name of the architecture.
    pub name: String,
}

/// Parses `triple` with `target_lexicon`'s `Triple::from_str` and reads the
/// architecture of the result: its family, told apart by the variant of
/// `Architecture`, and its name, printed by `Architecture`'s `Display`. A
/// string that the parser refuses gives `None`. The parser starts from the
/// string alone, so both results are named after it.
#[verifier::external_body]
pub(crate) fn parse_triple(triple: &str) -> (r: Option<TripleArch>)
    ensures
        r is Some <==> triple_family(triple@) is Some,
        r is Some ==> r->0.family == triple_family(triple@)->0 && r->0.name@ == triple_arch(
            triple@,
        ),
{
    match triple.parse::<target_lexicon::Triple>() {
        Ok(t) => {
            let family = match t.architecture {
                target_lexicon::Architecture::X86_64 => ArchFamily::X86_64,
                target_lexicon::Architecture::Aarch64(_) => ArchFamily::Aarch64,
                target_lexicon::Architecture::Arm(_) => ArchFamily::Arm,
                _ => ArchFamily::Other,
            };
            Some(TripleArch { family, name: t.architecture.to_string() })
        },
        Err(_) => None,
    }
}

/// The triple of the machine that this code was built for, as
/// `wasmer_compiler::Target::default` reports it. Nothing is promised of it.
#[verifier::external_body]
pub(crate) fn host_triple() -> (triple: String) {
    wasmer_compiler::Target::default().triple().to_string()
}

/// A target: the triple that identifies the machine, and the set of its
/// capabilities. A target does not change once it is made.
#[derive(Debug, PartialEq, Eq, Hash)]
pub struct Target {
    triple: String,
    cpu_features: CpuFeatures,
}

impl Target {
    /// The triple.
    pub closed spec fn spec_triple(&self) -> Seq<char> {
        self.triple@
    }

    /// The capabilities.
    pub closed spec fn spec_cpu_features(&self) -> Set<wasmer_compiler::CpuFeature> {
        self.cpu_features@
    }

    /// A target with the given triple and capabilities.
    pub fn new(triple: String, cpu_features: CpuFeatures) -> (t: Target)
        ensures
            t.spec_triple() == triple@,
            t.spec_cpu_features() == cpu_features@,
    {
        Target { triple, cpu_features }
    }

    /// The triple.
    pub fn triple(&self) -> (triple: &str)
        ensures
            triple@ == self.spec_triple(),
    {
        self.triple.as_str()
    }

    /// The capabilities.
    pub fn cpu_features(&self) -> (features: &CpuFeatures)
        ensures
            features@ == self.spec_cpu_features(),
    {
        &self.cpu_features
    }

    /// The target that this code runs on: its triple and its capabilities,
    /// as the machine reports them.
    pub fn host() -> (t: Target) {
        Target::new(host_triple(), host_cpu_features())
    }

    /// A copy of this target.
    pub fn duplicate(&self) -> (t: Target)
        ensures
            t == *self,
    {
        Target { triple: self.triple.clone(), cpu_features: self.cpu_features.duplicate() }
    }
}

impl Default for Target {
    /// The host.
    fn default() -> (t: Target) {
        Target::host()
    }
}

} // verus!
