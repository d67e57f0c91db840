use crc_fast::feature_detection::{
    create_arch_ops_from_tier, select_performance_tier, tier_to_target_string, TargetArch,
};
use crc_fast::{
    get_arch_ops, get_calculator_target, select_performance_tier_for_test, ArchCapabilities,
    ArchOpsInstance, CrcAlgorithm, PerformanceTier,
};

fn caps(
    has_aes: bool,
    has_sha3: bool,
    has_sse41: bool,
    has_pclmulqdq: bool,
    has_avx512vl: bool,
    has_vpclmulqdq: bool,
    rust_version_supports_avx512: bool,
) -> ArchCapabilities {
    ArchCapabilities {
        has_aes,
        has_sha3,
        has_sse41,
        has_pclmulqdq,
        has_avx512vl,
        has_vpclmulqdq,
        rust_version_supports_avx512,
    }
}

#[test]
fn test_aarch64_tier_selection() {
    assert_eq!(
        select_performance_tier_for_test(&caps(true, true, false, false, false, false, false)),
        PerformanceTier::AArch64AesSha3
    );
    assert_eq!(
        select_performance_tier_for_test(&caps(true, false, false, false, false, false, false)),
        PerformanceTier::AArch64Aes
    );
    assert_eq!(
        select_performance_tier_for_test(&caps(false, false, false, false, false, false, false)),
        PerformanceTier::SoftwareTable
    );
}

#[test]
fn test_aarch64_feature_hierarchy() {
    let capabilities_with_aes = caps(true, false, false, false, false, false, false);
    assert!(capabilities_with_aes.has_aes);
    let capabilities_with_sha3 = caps(true, true, false, false, false, false, false);
    assert!(capabilities_with_sha3.has_aes);
    assert!(capabilities_with_sha3.has_sha3);
}

#[test]
fn test_x86_64_tier_selection() {
    assert_eq!(
        select_performance_tier_for_test(&caps(false, false, true, true, true, true, true)),
        PerformanceTier::X86_64Avx512Vpclmulqdq
    );
    assert_eq!(
        select_performance_tier_for_test(&caps(false, false, true, true, true, false, true)),
        PerformanceTier::X86_64Avx512Pclmulqdq
    );
    assert_eq!(
        select_performance_tier_for_test(&caps(false, false, true, true, true, true, false)),
        PerformanceTier::X86_64SsePclmulqdq
    );
    assert_eq!(
        select_performance_tier_for_test(&caps(false, false, true, true, true, false, false)),
        PerformanceTier::X86_64SsePclmulqdq
    );
    assert_eq!(
        select_performance_tier_for_test(&caps(false, false, true, true, false, false, false)),
        PerformanceTier::X86_64SsePclmulqdq
    );
    assert_eq!(
        select_performance_tier_for_test(&caps(false, false, true, false, false, false, false)),
        PerformanceTier::SoftwareTable
    );
}

#[test]
fn test_x86_tier_selection() {
    assert_eq!(
        select_performance_tier_for_test(&caps(false, false, true, true, false, false, false)),
        PerformanceTier::X86_64SsePclmulqdq
    );
    assert_eq!(
        select_performance_tier_for_test(&caps(false, false, true, true, false, false, false)),
        PerformanceTier::X86_64SsePclmulqdq
    );
    assert_eq!(
        select_performance_tier_for_test(&caps(false, false, true, false, false, false, false)),
        PerformanceTier::SoftwareTable
    );
    let c = caps(false, false, true, true, false, false, false);
    assert_eq!(select_performance_tier(TargetArch::X86, &c), PerformanceTier::X86SsePclmulqdq);
}

#[test]
fn test_x86_feature_hierarchy() {
    let capabilities_full = caps(false, false, true, true, true, true, true);
    assert!(capabilities_full.has_sse41);
    assert!(capabilities_full.has_pclmulqdq);
    assert!(capabilities_full.has_avx512vl);
    assert!(capabilities_full.has_vpclmulqdq);
    assert!(capabilities_full.rust_version_supports_avx512);
}

#[test]
fn test_rust_version_gating_scenarios() {
    let tier = select_performance_tier_for_test(&caps(false, false, true, true, true, true, false));
    assert_ne!(tier, PerformanceTier::X86_64Avx512Vpclmulqdq);
    assert_ne!(tier, PerformanceTier::X86_64Avx512Pclmulqdq);
    assert_eq!(tier, PerformanceTier::X86_64SsePclmulqdq);
}

#[test]
fn test_feature_dependency_validation() {
    assert_eq!(
        select_performance_tier_for_test(&caps(false, true, false, false, false, false, false)),
        PerformanceTier::SoftwareTable
    );
    assert_eq!(
        select_performance_tier_for_test(&caps(false, false, true, true, false, true, true)),
        PerformanceTier::X86_64SsePclmulqdq
    );
}

#[test]
fn test_all_aarch64_tier_combinations() {
    assert_eq!(
        select_performance_tier_for_test(&caps(false, false, false, false, false, false, false)),
        PerformanceTier::SoftwareTable
    );
    assert_eq!(
        select_performance_tier_for_test(&caps(true, false, false, false, false, false, false)),
        PerformanceTier::AArch64Aes
    );
    assert_eq!(
        select_performance_tier_for_test(&caps(true, true, false, false, false, false, false)),
        PerformanceTier::AArch64AesSha3
    );
}

#[test]
fn test_all_x86_64_tier_combinations() {
    assert_eq!(
        select_performance_tier_for_test(&caps(false, false, false, false, false, false, false)),
        PerformanceTier::SoftwareTable
    );
    assert_eq!(
        select_performance_tier_for_test(&caps(false, false, true, false, false, false, false)),
        PerformanceTier::SoftwareTable
    );
    assert_eq!(
        select_performance_tier_for_test(&caps(false, false, true, true, false, false, false)),
        PerformanceTier::X86_64SsePclmulqdq
    );
    assert_eq!(
        select_performance_tier_for_test(&caps(false, false, true, true, true, false, false)),
        PerformanceTier::X86_64SsePclmulqdq
    );
    assert_eq!(
        select_performance_tier_for_test(&caps(false, false, true, true, true, false, true)),
        PerformanceTier::X86_64Avx512Pclmulqdq
    );
    assert_eq!(
        select_performance_tier_for_test(&caps(false, false, true, true, true, true, false)),
        PerformanceTier::X86_64SsePclmulqdq
    );
    assert_eq!(
        select_performance_tier_for_test(&caps(false, false, true, true, true, true, true)),
        PerformanceTier::X86_64Avx512Vpclmulqdq
    );
}

#[test]
fn test_x86_32bit_tier_combinations() {
    assert_eq!(
        select_performance_tier_for_test(&caps(false, false, false, false, false, false, false)),
        PerformanceTier::SoftwareTable
    );
    assert_eq!(
        select_performance_tier_for_test(&caps(false, false, true, true, false, false, false)),
        PerformanceTier::X86_64SsePclmulqdq
    );
}

#[test]
fn test_target_string_consistency() {
    let test_cases = [
        (PerformanceTier::AArch64AesSha3, "aarch64-neon-pmull-sha3"),
        (PerformanceTier::AArch64Aes, "aarch64-neon-pmull"),
        (PerformanceTier::X86_64Avx512Vpclmulqdq, "x86_64-avx512-vpclmulqdq"),
        (PerformanceTier::X86_64Avx512Pclmulqdq, "x86_64-avx512-pclmulqdq"),
        (PerformanceTier::X86_64SsePclmulqdq, "x86_64-sse-pclmulqdq"),
        (PerformanceTier::X86SsePclmulqdq, "x86-sse-pclmulqdq"),
        (PerformanceTier::SoftwareTable, "software-fallback-tables"),
    ];
    for (tier, expected_string) in test_cases {
        assert_eq!(tier_to_target_string(tier), expected_string);
    }
}

#[test]
fn test_aarch64_degradation_path() {
    let mut capabilities = caps(true, true, false, false, false, false, false);
    assert_eq!(select_performance_tier_for_test(&capabilities), PerformanceTier::AArch64AesSha3);
    capabilities.has_sha3 = false;
    assert_eq!(select_performance_tier_for_test(&capabilities), PerformanceTier::AArch64Aes);
    capabilities.has_aes = false;
    assert_eq!(select_performance_tier_for_test(&capabilities), PerformanceTier::SoftwareTable);
}

#[test]
fn test_x86_64_degradation_path() {
    let mut capabilities = caps(false, false, true, true, true, true, true);
    assert_eq!(
        select_performance_tier_for_test(&capabilities),
        PerformanceTier::X86_64Avx512Vpclmulqdq
    );
    capabilities.has_vpclmulqdq = false;
    assert_eq!(
        select_performance_tier_for_test(&capabilities),
        PerformanceTier::X86_64Avx512Pclmulqdq
    );
    capabilities.has_avx512vl = false;
    assert_eq!(select_performance_tier_for_test(&capabilities), PerformanceTier::X86_64SsePclmulqdq);
    capabilities.has_pclmulqdq = false;
    assert_eq!(select_performance_tier_for_test(&capabilities), PerformanceTier::SoftwareTable);
    capabilities.has_sse41 = false;
    assert_eq!(select_performance_tier_for_test(&capabilities), PerformanceTier::SoftwareTable);
}

#[test]
fn test_rust_version_degradation() {
    assert_eq!(
        select_performance_tier_for_test(&caps(false, false, true, true, true, true, false)),
        PerformanceTier::X86_64SsePclmulqdq
    );
}

#[test]
fn test_partial_feature_availability() {
    assert_eq!(
        select_performance_tier_for_test(&caps(false, true, false, false, false, false, false)),
        PerformanceTier::SoftwareTable
    );
    assert_eq!(
        select_performance_tier_for_test(&caps(false, false, true, true, false, true, true)),
        PerformanceTier::X86_64SsePclmulqdq
    );
}

#[test]
fn test_aarch64_without_aes_falls_back_to_software() {
    let tier = select_performance_tier_for_test(&caps(false, false, false, false, false, false, false));
    assert_eq!(tier, PerformanceTier::SoftwareTable);
}

#[test]
fn test_x86_without_pclmulqdq_falls_back_to_software() {
    let tier = select_performance_tier_for_test(&caps(false, false, true, false, false, false, false));
    assert_eq!(tier, PerformanceTier::SoftwareTable);
    let tier = select_performance_tier_for_test(&caps(false, false, false, false, false, false, false));
    assert_eq!(tier, PerformanceTier::SoftwareTable);
}

#[test]
fn arch_specific_selection_ignores_other_architectures() {
    let all = caps(true, true, true, true, true, true, true);
    assert_eq!(select_performance_tier(TargetArch::Aarch64, &all), PerformanceTier::AArch64AesSha3);
    assert_eq!(
        select_performance_tier(TargetArch::X86_64, &all),
        PerformanceTier::X86_64Avx512Vpclmulqdq
    );
    assert_eq!(select_performance_tier(TargetArch::X86, &all), PerformanceTier::X86SsePclmulqdq);
    assert_eq!(select_performance_tier(TargetArch::Other, &all), PerformanceTier::SoftwareTable);
}

#[test]
fn sse_tiers_share_one_instance() {
    let i = create_arch_ops_from_tier(PerformanceTier::X86_64SsePclmulqdq);
    assert!(matches!(i, ArchOpsInstance::X86SsePclmulqdq(_)));
    assert_eq!(i.get_tier(), PerformanceTier::X86SsePclmulqdq);
    assert_eq!(i.get_target_string(), "x86-sse-pclmulqdq");
}

#[test]
fn calculator_target_names_the_selected_tier() {
    let ops = get_arch_ops(TargetArch::X86_64, &caps(false, false, true, true, true, false, true));
    assert_eq!(get_calculator_target(CrcAlgorithm::Crc32IsoHdlc, &ops), "x86_64-avx512-pclmulqdq");
    let ops = get_arch_ops(TargetArch::Other, &caps(true, true, true, true, true, true, true));
    assert_eq!(get_calculator_target(CrcAlgorithm::Crc64Nvme, &ops), "software-fallback-tables");
}

fn detected_ops() -> ArchOpsInstance {
    get_arch_ops(TargetArch::X86_64, &caps(false, false, true, true, false, false, true))
}

#[test]
fn test_get_calculator_target_format() {
    let target = get_calculator_target(CrcAlgorithm::Crc32IsoHdlc, &detected_ops());
    assert!(!target.is_empty());
    let valid_prefixes = ["aarch64-", "x86_64-", "x86-", "software-"];
    assert!(valid_prefixes.iter().any(|prefix| target.starts_with(prefix)), "{}", target);
    let parts: Vec<&str> = target.split('-').collect();
    assert!(parts.len() >= 3, "{}", target);
}

#[test]
fn test_get_calculator_target_consistency() {
    let ops = detected_ops();
    let target1 = get_calculator_target(CrcAlgorithm::Crc32IsoHdlc, &ops);
    let target2 = get_calculator_target(CrcAlgorithm::Crc32Iscsi, &ops);
    let target3 = get_calculator_target(CrcAlgorithm::Crc64Nvme, &ops);
    assert_eq!(target1, target2);
    assert_eq!(target1, target3);
}

#[test]
fn test_get_calculator_target_uses_cached_detection() {
    let ops = detected_ops();
    let target1 = get_calculator_target(CrcAlgorithm::Crc32IsoHdlc, &ops);
    let target2 = get_calculator_target(CrcAlgorithm::Crc32IsoHdlc, &ops);
    assert_eq!(target1, target2);
}
