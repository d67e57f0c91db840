//! CRC-32 and CRC-64 checksums for every catalogued variant and for custom
//! parameters, with streaming digests and checksum combination.
pub mod cache;
pub mod checksum;
pub mod engine;
pub mod feature_detection;
pub mod ffi;
pub mod format;
pub mod generate;
pub mod laws;
pub mod model;
pub mod params;

pub use checksum::{
    checksum, checksum_combine, checksum_combine_with_params, checksum_with_params, Digest,
};
pub use cache::{get_or_generate_keys, CrcParamsCacheKey, KeyCache};
pub use feature_detection::{
    get_arch_ops, get_calculator_target, select_performance_tier_for_test, ArchCapabilities,
    ArchOpsInstance, PerformanceTier,
};
pub use params::{
    get_calculator_params, CrcAlgorithm, CrcKeysStorage, CrcParams, CrcState, CrcVariant, Width32,
    Width64,
};
