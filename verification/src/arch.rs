//! FlashMLA target architectures.

use crate::error::failure;
use crate::error::Error;
use crate::error::ErrorModel;
use crate::text::decimal;
use crate::text::labelled;
use crate::text::number;
use vstd::prelude::*;
use vstd::string::StringExecFns;

verus! {

/// FlashMLA-supported NVIDIA GPU architecture.
#[derive(Debug, Copy, Clone, PartialEq, Eq, Structural)]
pub enum Arch {
    /// Hopper datacenter GPUs compiled with `sm_90a`.
    Sm90a,
    /// Blackwell datacenter GPUs compiled with `sm_100f`.
    Sm100f,
}

/// The architecture of GPUs of compute capability `major.minor`, if FlashMLA supports it.
pub open spec fn arch_of(major: u32, minor: u32) -> Option<Arch> {
    if major == 9 && minor == 0 {
        Some(Arch::Sm90a)
    } else if major == 10 && minor == 0 {
        Some(Arch::Sm100f)
    } else {
        None
    }
}

/// Why GPUs of compute capability `major.minor` cannot be used, if they cannot.
pub open spec fn capability_error(major: u32, minor: u32) -> Option<ErrorModel> {
    if arch_of(major, minor) is Some {
        None
    } else if major == 12 && (minor == 0 || minor == 1) {
        Some(
            ErrorModel::UnsupportedArch(
                "SM120/SM121 are intentionally unsupported by upstream FlashMLA"@,
            ),
        )
    } else {
        Some(
            ErrorModel::UnsupportedArch(
                "expected SM90 or SM100, got compute capability "@ + decimal(major as nat) + "."@
                    + decimal(minor as nat),
            ),
        )
    }
}

impl Arch {
    /// Maps CUDA compute capability to a FlashMLA-supported architecture.
    pub fn from_compute_capability(major: u32, minor: u32) -> (r: Result<Arch, Error>)
        ensures
            failure(r) == capability_error(major, minor),
            r matches Ok(arch) ==> arch_of(major, minor) == Some(arch),
    {
        match (major, minor) {
            (9, 0) => Ok(Arch::Sm90a),
            (10, 0) => Ok(Arch::Sm100f),
            (12, 0) | (12, 1) => Err(
                Error::UnsupportedArch(
                    String::from_str(
                        "SM120/SM121 are intentionally unsupported by upstream FlashMLA",
                    ),
                ),
            ),
            _ => Err(
                Error::UnsupportedArch(
                    labelled(
                        "expected SM90 or SM100, got compute capability ",
                        number(major as usize).as_str(),
                    ).concat(".").concat(number(minor as usize).as_str()),
                ),
            ),
        }
    }

    /// The NVCC architecture string of this architecture.
    pub open spec fn nvcc_arch_spec(self) -> Seq<char> {
        match self {
            Arch::Sm90a => "sm_90a"@,
            Arch::Sm100f => "sm_100f"@,
        }
    }

    /// Returns the NVCC architecture string used by FlashMLA for this architecture.
    pub fn nvcc_arch(self) -> (name: &'static str)
        ensures
            name@ == self.nvcc_arch_spec(),
    {
        match self {
            Arch::Sm90a => "sm_90a",
            Arch::Sm100f => "sm_100f",
        }
    }
}

/// SM90 has compute capability 9.0 and SM100 10.0; no other capability is supported, and those of
/// SM120 and SM121 are refused as left out on purpose.
pub proof fn capabilities_of_the_architectures(major: u32, minor: u32)
    ensures
        arch_of(major, minor) == Some(Arch::Sm90a) <==> major == 9 && minor == 0,
        arch_of(major, minor) == Some(Arch::Sm100f) <==> major == 10 && minor == 0,
        capability_error(major, minor) is None <==> arch_of(major, minor) is Some,
        capability_error(major, minor) matches Some(e) ==> e is UnsupportedArch,
        major == 12 && minor <= 1 ==> capability_error(major, minor) == Some(
            ErrorModel::UnsupportedArch(
                "SM120/SM121 are intentionally unsupported by upstream FlashMLA"@,
            ),
        ),
{
}

/// The compiler's names of the architectures.
pub proof fn compiler_names_of_the_architectures(arch: Arch)
    ensures
        arch == Arch::Sm90a ==> arch.nvcc_arch_spec() == "sm_90a"@,
        arch == Arch::Sm100f ==> arch.nvcc_arch_spec() == "sm_100f"@,
{
}

} // verus!
