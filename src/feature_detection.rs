//! Selection of the performance tier from the CPU's capabilities.
//!
//! The capabilities themselves are read from the CPU by the caller, once per
//! process; from them this module picks the highest tier whose prerequisites
//! all hold, and names it.
use vstd::prelude::*;

use crate::params::CrcAlgorithm;

verus! {

/// Performance tiers, one per hardware capability level.
#[derive(Debug, Clone, Copy, PartialEq, Eq, Structural)]
pub enum PerformanceTier {
    AArch64AesSha3,
    AArch64Aes,
    X86_64Avx512Vpclmulqdq,
    X86_64Avx512Pclmulqdq,
    X86_64SsePclmulqdq,
    X86SsePclmulqdq,
    SoftwareTable,
}

/// The architecture the library was built for.
#[derive(Debug, Clone, Copy, PartialEq, Eq, Structural)]
pub enum TargetArch {
    Aarch64,
    X86_64,
    X86,
    Other,
}

/// Architecture-specific capabilities, as detected at run time together
/// with whether the toolchain can express the wide-tier intrinsics.
#[derive(Debug, Clone, Copy, PartialEq, Eq, Structural)]
pub struct ArchCapabilities {
    /// PMULL support (NEON is implicit).
    pub has_aes: bool,
    /// EOR3 support; requires `has_aes`.
    pub has_sha3: bool,
    pub has_sse41: bool,
    pub has_pclmulqdq: bool,
    /// AVX-512 VL, which also gives a three-way XOR.
    pub has_avx512vl: bool,
    pub has_vpclmulqdq: bool,
    /// The toolchain can express the AVX-512 carry-less multiply intrinsics.
    pub rust_version_supports_avx512: bool,
}

/// The tier that `select_performance_tier` picks on `arch`.
pub open spec fn tier_for(arch: TargetArch, c: ArchCapabilities) -> PerformanceTier {
    if arch == TargetArch::Aarch64 && c.has_sha3 && c.has_aes {
        PerformanceTier::AArch64AesSha3
    } else if arch == TargetArch::Aarch64 && c.has_aes {
        PerformanceTier::AArch64Aes
    } else if arch == TargetArch::X86_64 && c.has_vpclmulqdq {
        PerformanceTier::X86_64Avx512Vpclmulqdq
    } else if arch == TargetArch::X86_64 && c.has_avx512vl {
        PerformanceTier::X86_64Avx512Pclmulqdq
    } else if arch == TargetArch::X86_64 && c.has_pclmulqdq {
        PerformanceTier::X86_64SsePclmulqdq
    } else if arch == TargetArch::X86 && c.has_pclmulqdq {
        PerformanceTier::X86SsePclmulqdq
    } else {
        PerformanceTier::SoftwareTable
    }
}

/// The tier that the architecture-independent selection picks.
pub open spec fn tier_for_any_arch(c: ArchCapabilities) -> PerformanceTier {
    if c.has_sha3 && c.has_aes {
        PerformanceTier::AArch64AesSha3
    } else if c.has_aes {
        PerformanceTier::AArch64Aes
    } else if c.has_vpclmulqdq && c.has_avx512vl && c.rust_version_supports_avx512 {
        PerformanceTier::X86_64Avx512Vpclmulqdq
    } else if c.has_avx512vl && c.has_pclmulqdq && c.rust_version_supports_avx512 {
        PerformanceTier::X86_64Avx512Pclmulqdq
    } else if c.has_pclmulqdq && c.has_sse41 {
        PerformanceTier::X86_64SsePclmulqdq
    } else {
        PerformanceTier::SoftwareTable
    }
}

/// The target string of a tier: `{architecture}-{intrinsics family}-{features}`.
pub open spec fn tier_target(tier: PerformanceTier) -> Seq<char> {
    match tier {
        PerformanceTier::AArch64AesSha3 => "aarch64-neon-pmull-sha3"@,
        PerformanceTier::AArch64Aes => "aarch64-neon-pmull"@,
        PerformanceTier::X86_64Avx512Vpclmulqdq => "x86_64-avx512-vpclmulqdq"@,
        PerformanceTier::X86_64Avx512Pclmulqdq => "x86_64-avx512-pclmulqdq"@,
        PerformanceTier::X86_64SsePclmulqdq => "x86_64-sse-pclmulqdq"@,
        PerformanceTier::X86SsePclmulqdq => "x86-sse-pclmulqdq"@,
        PerformanceTier::SoftwareTable => "software-fallback-tables"@,
    }
}

/// Converts a performance tier to its target string.
pub fn tier_to_target_string(tier: PerformanceTier) -> (r: String)
    ensures
        r@ == tier_target(tier),
{
    match tier {
        PerformanceTier::AArch64AesSha3 => "aarch64-neon-pmull-sha3".to_owned(),
        PerformanceTier::AArch64Aes => "aarch64-neon-pmull".to_owned(),
        PerformanceTier::X86_64Avx512Vpclmulqdq => "x86_64-avx512-vpclmulqdq".to_owned(),
        PerformanceTier::X86_64Avx512Pclmulqdq => "x86_64-avx512-pclmulqdq".to_owned(),
        PerformanceTier::X86_64SsePclmulqdq => "x86_64-sse-pclmulqdq".to_owned(),
        PerformanceTier::X86SsePclmulqdq => "x86-sse-pclmulqdq".to_owned(),
        PerformanceTier::SoftwareTable => "software-fallback-tables".to_owned(),
    }
}

/// Selects the highest tier whose prerequisites hold on `arch`.
pub fn select_performance_tier(arch: TargetArch, capabilities: &ArchCapabilities) -> (r:
    PerformanceTier)
    ensures
        r == tier_for(arch, *capabilities),
{
    match arch {
        TargetArch::Aarch64 => {
            if capabilities.has_sha3 && capabilities.has_aes {
                return PerformanceTier::AArch64AesSha3;
            }
            if capabilities.has_aes {
                return PerformanceTier::AArch64Aes;
            }
        },
        TargetArch::X86_64 => {
            if capabilities.has_vpclmulqdq {
                return PerformanceTier::X86_64Avx512Vpclmulqdq;
            }
            if capabilities.has_avx512vl {
                return PerformanceTier::X86_64Avx512Pclmulqdq;
            }
            if capabilities.has_pclmulqdq {
                return PerformanceTier::X86_64SsePclmulqdq;
            }
        },
        TargetArch::X86 => {
            if capabilities.has_pclmulqdq {
                return PerformanceTier::X86SsePclmulqdq;
            }
        },
        TargetArch::Other => {},
    }
    PerformanceTier::SoftwareTable
}

/// Tier selection over the capabilities of every architecture at once.
pub fn select_performance_tier_for_test(capabilities: &ArchCapabilities) -> (r: PerformanceTier)
    ensures
        r == tier_for_any_arch(*capabilities),
{
    if capabilities.has_sha3 && capabilities.has_aes {
        return PerformanceTier::AArch64AesSha3;
    }
    if capabilities.has_aes {
        return PerformanceTier::AArch64Aes;
    }
    if capabilities.has_vpclmulqdq && capabilities.has_avx512vl
        && capabilities.rust_version_supports_avx512 {
        return PerformanceTier::X86_64Avx512Vpclmulqdq;
    }
    if capabilities.has_avx512vl && capabilities.has_pclmulqdq
        && capabilities.rust_version_supports_avx512 {
        return PerformanceTier::X86_64Avx512Pclmulqdq;
    }
    if capabilities.has_pclmulqdq && capabilities.has_sse41 {
        return PerformanceTier::X86_64SsePclmulqdq;
    }
    PerformanceTier::SoftwareTable
}

/// The AArch64 tier with AES (PMULL).
#[derive(Debug, Clone, Copy, PartialEq, Eq, Structural)]
pub struct Aarch64AesOps;

/// The AArch64 tier with AES and SHA3 (EOR3).
#[derive(Debug, Clone, Copy, PartialEq, Eq, Structural)]
pub struct Aarch64AesSha3Ops;

impl Aarch64AesSha3Ops {
    pub fn new() -> (r: Self) {
        Aarch64AesSha3Ops
    }
}

/// The AArch64 tier with SHA3 (EOR3) on top of AES.
#[derive(Debug, Clone, Copy, PartialEq, Eq, Structural)]
pub struct AArch64Sha3Ops;

impl AArch64Sha3Ops {
    pub fn new() -> (r: Self) {
        AArch64Sha3Ops
    }
}

/// The 256-bit carry-less multiply extension of the AVX-512 tier.
#[derive(Debug, Clone, Copy, PartialEq, Eq, Structural)]
pub struct VpclmulqdqOps;

impl VpclmulqdqOps {
    pub fn new() -> (r: Self) {
        VpclmulqdqOps
    }
}

/// The x86 tier with SSE and PCLMULQDQ.
#[derive(Debug, Clone, Copy, PartialEq, Eq, Structural)]
pub struct X86SsePclmulqdqOps;

/// The x86-64 tier with AVX-512 and PCLMULQDQ.
#[derive(Debug, Clone, Copy, PartialEq, Eq, Structural)]
pub struct X86_64Avx512PclmulqdqOps;

impl X86_64Avx512PclmulqdqOps {
    pub fn new() -> (r: Self) {
        X86_64Avx512PclmulqdqOps
    }
}

/// The x86-64 tier with AVX-512 and VPCLMULQDQ.
#[derive(Debug, Clone, Copy, PartialEq, Eq, Structural)]
pub struct X86_64Avx512VpclmulqdqOps;

impl X86_64Avx512VpclmulqdqOps {
    pub fn new() -> (r: Self) {
        X86_64Avx512VpclmulqdqOps
    }
}

/// The selected implementation tier.
#[derive(Debug, Clone, Copy, PartialEq, Eq, Structural)]
pub enum ArchOpsInstance {
    Aarch64Aes(Aarch64AesOps),
    Aarch64AesSha3(Aarch64AesSha3Ops),
    X86SsePclmulqdq(X86SsePclmulqdqOps),
    X86_64Avx512Pclmulqdq(X86_64Avx512PclmulqdqOps),
    X86_64Avx512Vpclmulqdq(X86_64Avx512VpclmulqdqOps),
    /// The table-driven fallback.
    SoftwareFallback,
}

/// The tier of an instance.
pub open spec fn instance_tier(i: ArchOpsInstance) -> PerformanceTier {
    match i {
        ArchOpsInstance::Aarch64Aes(_) => PerformanceTier::AArch64Aes,
        ArchOpsInstance::Aarch64AesSha3(_) => PerformanceTier::AArch64AesSha3,
        ArchOpsInstance::X86SsePclmulqdq(_) => PerformanceTier::X86SsePclmulqdq,
        ArchOpsInstance::X86_64Avx512Pclmulqdq(_) => PerformanceTier::X86_64Avx512Pclmulqdq,
        ArchOpsInstance::X86_64Avx512Vpclmulqdq(_) => PerformanceTier::X86_64Avx512Vpclmulqdq,
        ArchOpsInstance::SoftwareFallback => PerformanceTier::SoftwareTable,
    }
}

/// The tier an instance is made for: both SSE tiers share one instance.
pub open spec fn instance_tier_of(tier: PerformanceTier) -> PerformanceTier {
    if tier == PerformanceTier::X86_64SsePclmulqdq {
        PerformanceTier::X86SsePclmulqdq
    } else {
        tier
    }
}

impl ArchOpsInstance {
    /// The tier of this instance.
    pub fn get_tier(&self) -> (r: PerformanceTier)
        ensures
            r == instance_tier(*self),
    {
        match self {
            ArchOpsInstance::Aarch64Aes(_) => PerformanceTier::AArch64Aes,
            ArchOpsInstance::Aarch64AesSha3(_) => PerformanceTier::AArch64AesSha3,
            ArchOpsInstance::X86SsePclmulqdq(_) => PerformanceTier::X86SsePclmulqdq,
            ArchOpsInstance::X86_64Avx512Pclmulqdq(_) => PerformanceTier::X86_64Avx512Pclmulqdq,
            ArchOpsInstance::X86_64Avx512Vpclmulqdq(_) => PerformanceTier::X86_64Avx512Vpclmulqdq,
            ArchOpsInstance::SoftwareFallback => PerformanceTier::SoftwareTable,
        }
    }

    /// A human-readable string naming the active tier.
    pub fn get_target_string(&self) -> (r: String)
        ensures
            r@ == tier_target(instance_tier(*self)),
    {
        tier_to_target_string(self.get_tier())
    }
}

/// The instance for a tier.
pub fn create_arch_ops_from_tier(tier: PerformanceTier) -> (r: ArchOpsInstance)
    ensures
        instance_tier(r) == instance_tier_of(tier),
{
    match tier {
        PerformanceTier::AArch64AesSha3 => ArchOpsInstance::Aarch64AesSha3(Aarch64AesSha3Ops::new()),
        PerformanceTier::AArch64Aes => ArchOpsInstance::Aarch64Aes(Aarch64AesOps),
        PerformanceTier::X86_64Avx512Vpclmulqdq => ArchOpsInstance::X86_64Avx512Vpclmulqdq(
            X86_64Avx512VpclmulqdqOps::new(),
        ),
        PerformanceTier::X86_64Avx512Pclmulqdq => ArchOpsInstance::X86_64Avx512Pclmulqdq(
            X86_64Avx512PclmulqdqOps::new(),
        ),
        PerformanceTier::X86_64SsePclmulqdq => ArchOpsInstance::X86SsePclmulqdq(X86SsePclmulqdqOps),
        PerformanceTier::X86SsePclmulqdq => ArchOpsInstance::X86SsePclmulqdq(X86SsePclmulqdqOps),
        PerformanceTier::SoftwareTable => ArchOpsInstance::SoftwareFallback,
    }
}

/// The instance for the capabilities detected on `arch`.
pub fn get_arch_ops(arch: TargetArch, capabilities: &ArchCapabilities) -> (r: ArchOpsInstance)
    ensures
        instance_tier(r) == instance_tier_of(tier_for(arch, *capabilities)),
{
    let tier = select_performance_tier(arch, capabilities);
    create_arch_ops_from_tier(tier)
}

/// The target string of the tier that computes checksums; the same for
/// every algorithm.
pub fn get_calculator_target(algorithm: CrcAlgorithm, arch_ops: &ArchOpsInstance) -> (r: String)
    ensures
        r@ == tier_target(instance_tier(*arch_ops)),
{
    arch_ops.get_target_string()
}

} // verus!
