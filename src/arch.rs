//! Target processor architectures and the choice of the default one.
use crate::text::str_eq;
use vstd::prelude::*;

verus! {

/// A processor architecture that a task can be built for.
#[derive(Debug, Clone, Copy, PartialEq, Eq, Structural, Hash)]
pub enum TargetArch {
    X86_64,
    RiscV64,
    AArch64,
    LoongArch64,
}

/// The architecture that a name stands for, if it is one of the known names.
pub open spec fn arch_of(s: Seq<char>) -> Option<TargetArch> {
    if s == "x86_64"@ {
        Some(TargetArch::X86_64)
    } else if s == "riscv64"@ {
        Some(TargetArch::RiscV64)
    } else if s == "aarch64"@ {
        Some(TargetArch::AArch64)
    } else if s == "loongarch64"@ {
        Some(TargetArch::LoongArch64)
    } else {
        None
    }
}

/// The name of an architecture.
pub open spec fn arch_name(a: TargetArch) -> Seq<char> {
    match a {
        TargetArch::X86_64 => "x86_64"@,
        TargetArch::RiscV64 => "riscv64"@,
        TargetArch::AArch64 => "aarch64"@,
        TargetArch::LoongArch64 => "loongarch64"@,
    }
}

/// The architecture used when nothing selects another.
pub open spec fn fallback_arch() -> TargetArch {
    TargetArch::X86_64
}

/// The architecture that an override selects: the fallback where there is
/// none, else the architecture it names, if it names one.
pub open spec fn resolved_arch(arch_override: Option<Seq<char>>) -> Option<TargetArch> {
    match arch_override {
        None => Some(fallback_arch()),
        Some(s) => arch_of(s),
    }
}

impl TargetArch {
    /// The architecture named `s`, or an error that quotes `s`.
    pub fn try_from_str(s: &str) -> (r: Result<TargetArch, String>)
        ensures
            arch_of(s@) matches Some(a) ==> r == Ok::<TargetArch, String>(a),
            arch_of(s@) is None ==> (r matches Err(m) && m@ == "Unknown target arch: "@ + s@),
    {
        if str_eq(s, "x86_64") {
            Ok(TargetArch::X86_64)
        } else if str_eq(s, "riscv64") {
            Ok(TargetArch::RiscV64)
        } else if str_eq(s, "aarch64") {
            Ok(TargetArch::AArch64)
        } else if str_eq(s, "loongarch64") {
            Ok(TargetArch::LoongArch64)
        } else {
            Err(String::from_str("Unknown target arch: ").concat(s))
        }
    }

    /// The name of the architecture, as `try_from_str` reads it.
    pub fn as_str(&self) -> (r: &'static str)
        ensures
            r@ == arch_name(*self),
    {
        match self {
            TargetArch::X86_64 => "x86_64",
            TargetArch::RiscV64 => "riscv64",
            TargetArch::AArch64 => "aarch64",
            TargetArch::LoongArch64 => "loongarch64",
        }
    }
}

} // verus!
