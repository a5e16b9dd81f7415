//! The processor features that the kernel needs or would like to have, read
//! from the `edx` and `ecx` registers after `cpuid`.

use crate::c_lib::bit_flags::{flag_of, BitFlags};
use crate::c_lib::libc::error::MISSING_FEATURE;
use crate::lib_alloc::heap::Heap;
use vstd::prelude::*;

verus! {

/// A processor feature.
#[derive(Debug, Clone, Copy, PartialEq, Eq, Structural)]
pub enum Feature {
    Fpu,
    Msr,
    Pae,
    Cx8,
    Apic,
    Cmov,
    Fxsr,
    Cx16,
    Pse,
    Tsc,
    SseGeneral,
    Popcnt,
    Osxsave,
    Vmx,
    Pcid,
    X2Apic,
    Xsave,
    Avx,
    SseAdditional,
}

/// The name of a feature.
pub open spec fn spec_name(feature: Feature) -> Seq<char> {
    match feature {
        Feature::Fpu => "FPU"@,
        Feature::Msr => "MSR"@,
        Feature::Pae => "PAE"@,
        Feature::Cx8 => "CX8"@,
        Feature::Apic => "APIC"@,
        Feature::Cmov => "CMOV"@,
        Feature::Fxsr => "FXSR"@,
        Feature::Cx16 => "CX16"@,
        Feature::Pse => "PSE"@,
        Feature::Tsc => "TSC"@,
        Feature::SseGeneral => "SSE_GENERAL"@,
        Feature::Popcnt => "POPCNT"@,
        Feature::Osxsave => "OSXSAVE"@,
        Feature::Vmx => "VMX"@,
        Feature::Pcid => "PCID"@,
        Feature::X2Apic => "x2APIC"@,
        Feature::Xsave => "XSAVE"@,
        Feature::Avx => "AVX"@,
        Feature::SseAdditional => "SSE_ADDITIONAL"@,
    }
}

impl Feature {
    /// The name of the feature.
    pub fn name(self) -> (name: &'static str)
        ensures
            name@ == spec_name(self),
    {
        match self {
            Feature::Fpu => "FPU",
            Feature::Msr => "MSR",
            Feature::Pae => "PAE",
            Feature::Cx8 => "CX8",
            Feature::Apic => "APIC",
            Feature::Cmov => "CMOV",
            Feature::Fxsr => "FXSR",
            Feature::Cx16 => "CX16",
            Feature::Pse => "PSE",
            Feature::Tsc => "TSC",
            Feature::SseGeneral => "SSE_GENERAL",
            Feature::Popcnt => "POPCNT",
            Feature::Osxsave => "OSXSAVE",
            Feature::Vmx => "VMX",
            Feature::Pcid => "PCID",
            Feature::X2Apic => "x2APIC",
            Feature::Xsave => "XSAVE",
            Feature::Avx => "AVX",
            Feature::SseAdditional => "SSE_ADDITIONAL",
        }
    }
}

/// The first feature that the kernel needs and the processor lacks, in the
/// order in which they are checked.
pub open spec fn spec_required_missing(edx: u64, ecx: u64) -> Option<Feature> {
    if !flag_of(edx, 0) {
        Some(Feature::Fpu)
    } else     if !flag_of(edx, 5) {
        Some(Feature::Msr)
    } else     if !flag_of(edx, 6) {
        Some(Feature::Pae)
    } else     if !flag_of(edx, 8) {
        Some(Feature::Cx8)
    } else     if !flag_of(edx, 9) {
        Some(Feature::Apic)
    } else     if !flag_of(edx, 15) {
        Some(Feature::Cmov)
    } else     if !flag_of(edx, 24) {
        Some(Feature::Fxsr)
    } else     if !flag_of(ecx, 13) {
        Some(Feature::Cx16)
    } else {
        None
    }
}

/// The features that the kernel would like to have and the processor lacks,
/// in the order in which they are reported. The lack of VMX is reported only
/// in a debug build.
pub open spec fn spec_optional_missing(edx: u64, ecx: u64, debug_build: bool) -> Seq<Feature> {
    let w = Seq::<Feature>::empty();
    let w = if !flag_of(edx, 3) {
        w.push(Feature::Pse)
    } else {
        w
    };
    let w = if !flag_of(edx, 4) {
        w.push(Feature::Tsc)
    } else {
        w
    };
    let w = if !flag_of(edx, 25) || !flag_of(edx, 26) {
        w.push(Feature::SseGeneral)
    } else {
        w
    };
    let w = if !flag_of(ecx, 23) {
        w.push(Feature::Popcnt)
    } else {
        w
    };
    let w = if !flag_of(ecx, 27) {
        w.push(Feature::Osxsave)
    } else {
        w
    };
    let w = if (!flag_of(ecx, 5)) && debug_build {
        w.push(Feature::Vmx)
    } else {
        w
    };
    let w = if !flag_of(ecx, 17) {
        w.push(Feature::Pcid)
    } else {
        w
    };
    let w = if !flag_of(ecx, 21) {
        w.push(Feature::X2Apic)
    } else {
        w
    };
    let w = if !flag_of(ecx, 26) {
        w.push(Feature::Xsave)
    } else {
        w
    };
    let w = if !flag_of(ecx, 28) {
        w.push(Feature::Avx)
    } else {
        w
    };
    let w = if !flag_of(ecx, 0) || !flag_of(ecx, 19) || !flag_of(ecx, 20) || !flag_of(ecx, 9) {
        w.push(Feature::SseAdditional)
    } else {
        w
    };
    w
}

/// The first feature that the kernel needs and the processor lacks.
pub fn required_missing(edx: BitFlags, ecx: BitFlags) -> (missing: Option<Feature>)
    ensures
        missing == spec_required_missing(edx@, ecx@),
{
    if !edx.read_flag(0) {
        return Some(Feature::Fpu);
    }
    if !edx.read_flag(5) {
        return Some(Feature::Msr);
    }
    if !edx.read_flag(6) {
        return Some(Feature::Pae);
    }
    if !edx.read_flag(8) {
        return Some(Feature::Cx8);
    }
    if !edx.read_flag(9) {
        return Some(Feature::Apic);
    }
    if !edx.read_flag(15) {
        return Some(Feature::Cmov);
    }
    if !edx.read_flag(24) {
        return Some(Feature::Fxsr);
    }
    if !ecx.read_flag(13) {
        return Some(Feature::Cx16);
    }
    None
}

/// The features that the kernel would like to have and the processor lacks.
pub fn optional_missing(edx: BitFlags, ecx: BitFlags, debug_build: bool) -> (missing: Vec<Feature>)
    ensures
        missing@ == spec_optional_missing(edx@, ecx@, debug_build),
{
    let mut w: Vec<Feature> = Vec::new();
    if !edx.read_flag(3) {
        w.push(Feature::Pse);
    }
    if !edx.read_flag(4) {
        w.push(Feature::Tsc);
    }
    if !edx.read_flag(25) || !edx.read_flag(26) {
        w.push(Feature::SseGeneral);
    }
    if !ecx.read_flag(23) {
        w.push(Feature::Popcnt);
    }
    if !ecx.read_flag(27) {
        w.push(Feature::Osxsave);
    }
    if (!ecx.read_flag(5)) && debug_build {
        w.push(Feature::Vmx);
    }
    if !ecx.read_flag(17) {
        w.push(Feature::Pcid);
    }
    if !ecx.read_flag(21) {
        w.push(Feature::X2Apic);
    }
    if !ecx.read_flag(26) {
        w.push(Feature::Xsave);
    }
    if !ecx.read_flag(28) {
        w.push(Feature::Avx);
    }
    if !ecx.read_flag(0) || !ecx.read_flag(19) || !ecx.read_flag(20) || !ecx.read_flag(9) {
        w.push(Feature::SseAdditional);
    }
    w
}

/// Checks the processor's features. Where one that the kernel needs is
/// lacking, records `MISSING_FEATURE` and returns it as the error: the kernel
/// cannot go on. Otherwise changes nothing and returns the features to warn
/// about.
pub fn assert_cpuid_features(heap: &mut Heap, edx: BitFlags, ecx: BitFlags, debug_build: bool) -> (res: Result<
    Vec<Feature>,
    Feature,
>)
    ensures
        match spec_required_missing(edx@, ecx@) {
            Some(feature) => res == Err::<Vec<Feature>, Feature>(feature) && final(heap)@ == old(
                heap,
            )@.with_errno(7),
            None => res matches Ok(w) && w@ == spec_optional_missing(edx@, ecx@, debug_build)
                && final(heap)@ == old(heap)@,
        },
        old(heap).wf() ==> final(heap).wf(),
{
    match required_missing(edx, ecx) {
        Some(feature) => {
            heap.set_errno(MISSING_FEATURE);
            Err(feature)
        },
        None => Ok(optional_missing(edx, ecx, debug_build)),
    }
}

} // verus!
