use crc_fast::CrcAlgorithm::{
    Crc32Aixm, Crc32Autosar, Crc32Base91D, Crc32Bzip2, Crc32CdRomEdc, Crc32Cksum, Crc32Custom,
    Crc32Iscsi, Crc32IsoHdlc, Crc32Jamcrc, Crc32Mef, Crc32Mpeg2, Crc32Xfer, Crc64Custom,
    Crc64Ecma182, Crc64GoIso, Crc64Ms, Crc64Nvme, Crc64Redis, Crc64We, Crc64Xz,
};
use crc_fast::{
    checksum, checksum_combine, checksum_combine_with_params, checksum_with_params,
    get_calculator_params, CrcAlgorithm, CrcKeysStorage, CrcParams, Digest,
};
use rand::Rng;

const TEST_CHECK_STRING: &[u8] = b"123456789";

fn all_algorithms() -> Vec<CrcAlgorithm> {
    vec![
        Crc32Aixm, Crc32Autosar, Crc32Base91D, Crc32Bzip2, Crc32CdRomEdc, Crc32Cksum, Crc32Iscsi,
        Crc32IsoHdlc, Crc32Jamcrc, Crc32Mef, Crc32Mpeg2, Crc32Xfer, Crc64Ecma182, Crc64GoIso,
        Crc64Ms, Crc64Nvme, Crc64Redis, Crc64We, Crc64Xz,
    ]
}

fn reference(algorithm: CrcAlgorithm, data: &[u8]) -> u64 {
    match algorithm {
        Crc32Aixm => crc::Crc::<u32>::new(&crc::CRC_32_AIXM).checksum(data) as u64,
        Crc32Autosar => crc::Crc::<u32>::new(&crc::CRC_32_AUTOSAR).checksum(data) as u64,
        Crc32Base91D => crc::Crc::<u32>::new(&crc::CRC_32_BASE91_D).checksum(data) as u64,
        Crc32Bzip2 => crc::Crc::<u32>::new(&crc::CRC_32_BZIP2).checksum(data) as u64,
        Crc32CdRomEdc => crc::Crc::<u32>::new(&crc::CRC_32_CD_ROM_EDC).checksum(data) as u64,
        Crc32Cksum => crc::Crc::<u32>::new(&crc::CRC_32_CKSUM).checksum(data) as u64,
        Crc32Iscsi => crc::Crc::<u32>::new(&crc::CRC_32_ISCSI).checksum(data) as u64,
        Crc32IsoHdlc => crc::Crc::<u32>::new(&crc::CRC_32_ISO_HDLC).checksum(data) as u64,
        Crc32Jamcrc => crc::Crc::<u32>::new(&crc::CRC_32_JAMCRC).checksum(data) as u64,
        Crc32Mef => crc::Crc::<u32>::new(&crc::CRC_32_MEF).checksum(data) as u64,
        Crc32Mpeg2 => crc::Crc::<u32>::new(&crc::CRC_32_MPEG_2).checksum(data) as u64,
        Crc32Xfer => crc::Crc::<u32>::new(&crc::CRC_32_XFER).checksum(data) as u64,
        Crc64Ecma182 => crc::Crc::<u64>::new(&crc::CRC_64_ECMA_182).checksum(data),
        Crc64GoIso => crc::Crc::<u64>::new(&crc::CRC_64_GO_ISO).checksum(data),
        Crc64Ms => crc::Crc::<u64>::new(&crc::CRC_64_MS).checksum(data),
        Crc64Nvme => crc::Crc::<u64>::new(&crc::CRC_64_NVME).checksum(data),
        Crc64Redis => crc::Crc::<u64>::new(&crc::CRC_64_REDIS).checksum(data),
        Crc64We => crc::Crc::<u64>::new(&crc::CRC_64_WE).checksum(data),
        Crc64Xz => crc::Crc::<u64>::new(&crc::CRC_64_XZ).checksum(data),
        Crc32Custom | Crc64Custom => panic!("no reference for custom parameters"),
    }
}

fn custom(algorithm: CrcAlgorithm, name: &'static str) -> CrcParams {
    let p = get_calculator_params(algorithm);
    CrcParams::new(name, p.width, p.poly, p.init, p.refin, p.xorout, p.check)
}

fn get_custom_crc32_reflected() -> CrcParams {
    custom(Crc32Iscsi, "Custom CRC-32/ISCSI")
}

fn get_custom_crc32_forward() -> CrcParams {
    custom(Crc32Bzip2, "Custom CRC-32/BZIP2")
}

fn get_custom_crc64_reflected() -> CrcParams {
    custom(Crc64Nvme, "Custom CRC-64/NVME")
}

fn get_custom_crc64_forward() -> CrcParams {
    custom(Crc64Ecma182, "Custom CRC-64/ECMA-182")
}

fn check_of(algorithm: CrcAlgorithm) -> u64 {
    get_calculator_params(algorithm).check
}

#[test]
fn test_checksum_check() {
    for algorithm in all_algorithms() {
        assert_eq!(checksum(algorithm, TEST_CHECK_STRING), check_of(algorithm), "{:?}", algorithm);
    }
}

#[test]
fn test_checksum_reference() {
    for algorithm in all_algorithms() {
        assert_eq!(
            checksum(algorithm, TEST_CHECK_STRING),
            reference(algorithm, TEST_CHECK_STRING),
            "{:?}",
            algorithm
        );
    }
}

#[test]
fn test_checksum_with_custom_params() {
    assert_eq!(checksum_with_params(get_custom_crc32_reflected(), TEST_CHECK_STRING), check_of(Crc32Iscsi));
    assert_eq!(checksum_with_params(get_custom_crc32_forward(), TEST_CHECK_STRING), check_of(Crc32Bzip2));
    assert_eq!(checksum_with_params(get_custom_crc64_reflected(), TEST_CHECK_STRING), check_of(Crc64Nvme));
    assert_eq!(checksum_with_params(get_custom_crc64_forward(), TEST_CHECK_STRING), check_of(Crc64Ecma182));
}

#[test]
fn test_get_custom_params() {
    assert_eq!(checksum_with_params(get_custom_crc32_reflected(), TEST_CHECK_STRING), 0xe3069283);
    assert_eq!(checksum_with_params(get_custom_crc32_forward(), TEST_CHECK_STRING), 0xfc891918);
    assert_eq!(checksum_with_params(get_custom_crc64_reflected(), TEST_CHECK_STRING), 0xae8b14860a799888);
    assert_eq!(checksum_with_params(get_custom_crc64_forward(), TEST_CHECK_STRING), 0x6c40df5f0b497347);
}

fn check_digest(mut digest: Digest, check: u64) {
    digest.update(b"123");
    digest.update(b"456");
    digest.update(b"789");
    assert_eq!(digest.finalize(), check);
}

#[test]
fn test_digest_updates_check() {
    for algorithm in all_algorithms() {
        check_digest(Digest::new(algorithm), check_of(algorithm));
    }
}

#[test]
fn test_digest_updates_check_with_custom_params() {
    check_digest(Digest::new_with_params(get_custom_crc32_reflected()), check_of(Crc32Iscsi));
    check_digest(Digest::new_with_params(get_custom_crc32_forward()), check_of(Crc32Bzip2));
    check_digest(Digest::new_with_params(get_custom_crc64_reflected()), check_of(Crc64Nvme));
    check_digest(Digest::new_with_params(get_custom_crc64_forward()), check_of(Crc64Ecma182));
}

fn test_length(length: usize, algorithm: CrcAlgorithm) {
    let mut data = vec![0u8; length];
    rand::rng().fill(&mut data[..]);
    let expected = reference(algorithm, &data);
    let result = checksum(algorithm, &data);
    assert_eq!(result, expected, "{:?}, length {}", algorithm, length);
}

#[test]
fn test_small_all_lengths() {
    for algorithm in all_algorithms() {
        for len in 1..=255 {
            test_length(len, algorithm);
        }
    }
}

#[test]
fn test_combine() {
    for algorithm in all_algorithms() {
        let check = check_of(algorithm);
        let checksum1 = checksum(algorithm, "1234".as_ref());
        let checksum2 = checksum(algorithm, "56789".as_ref());
        assert_eq!(checksum_combine(algorithm, checksum1, checksum2, 5), check, "{:?}", algorithm);
        let mut digest1 = Digest::new(algorithm);
        digest1.update("1234".as_ref());
        let mut digest2 = Digest::new(algorithm);
        digest2.update("56789".as_ref());
        digest1.combine(&digest2);
        assert_eq!(digest1.finalize(), check, "{:?}", algorithm);
    }
}

#[test]
fn test_combine_with_custom_params() {
    for (params, check) in [
        (get_custom_crc32_reflected(), check_of(Crc32Iscsi)),
        (get_custom_crc32_forward(), check_of(Crc32Bzip2)),
        (get_custom_crc64_reflected(), check_of(Crc64Nvme)),
        (get_custom_crc64_forward(), check_of(Crc64Ecma182)),
    ] {
        let checksum1 = checksum_with_params(params, "1234".as_ref());
        let checksum2 = checksum_with_params(params, "56789".as_ref());
        assert_eq!(checksum_combine_with_params(params, checksum1, checksum2, 5), check);
    }
}

#[test]
fn test_digest_reset() {
    for algorithm in all_algorithms() {
        let mut digest = Digest::new(algorithm);
        digest.update(b"42");
        digest.reset();
        digest.update(TEST_CHECK_STRING);
        assert_eq!(digest.finalize(), check_of(algorithm));
    }
}

#[test]
fn test_digest_finalize_reset() {
    for algorithm in all_algorithms() {
        let check = check_of(algorithm);
        let mut digest = Digest::new(algorithm);
        digest.update(TEST_CHECK_STRING);
        assert_eq!(digest.finalize_reset(), check);
        digest.update(TEST_CHECK_STRING);
        assert_eq!(digest.finalize(), check);
    }
}

#[test]
fn test_crc_keys_storage_fold_256() {
    let test_keys = [1, 2, 3, 4, 5, 6, 7, 8, 9, 10, 11, 12, 13, 14, 15, 16, 17, 18, 19, 20, 21, 22, 23];
    let storage = CrcKeysStorage::from_keys_fold_256(test_keys);
    for i in 0..23 {
        assert_eq!(storage.get_key(i), test_keys[i]);
    }
    assert_eq!(storage.get_key(23), 0);
    assert_eq!(storage.get_key(24), 0);
    assert_eq!(storage.get_key(100), 0);
    assert_eq!(storage.key_count(), 23);
}

#[test]
fn test_crc_keys_storage_future_test() {
    let test_keys = [
        1, 2, 3, 4, 5, 6, 7, 8, 9, 10, 11, 12, 13, 14, 15, 16, 17, 18, 19, 20, 21, 22, 23, 24, 25,
    ];
    let storage = CrcKeysStorage::from_keys_fold_future_test(test_keys);
    for i in 0..25 {
        assert_eq!(storage.get_key(i), test_keys[i]);
    }
    assert_eq!(storage.get_key(25), 0);
    assert_eq!(storage.get_key(26), 0);
    assert_eq!(storage.get_key(100), 0);
    assert_eq!(storage.key_count(), 25);
}

#[test]
fn test_crc_params_safe_accessors() {
    let test_keys = [1, 2, 3, 4, 5, 6, 7, 8, 9, 10, 11, 12, 13, 14, 15, 16, 17, 18, 19, 20, 21, 22, 23];
    let params = CrcParams {
        algorithm: CrcAlgorithm::Crc32IsoHdlc,
        name: "test",
        width: 32,
        poly: 0x04C11DB7,
        init: 0xFFFFFFFF,
        refin: true,
        refout: true,
        xorout: 0xFFFFFFFF,
        check: 0xCBF43926,
        keys: CrcKeysStorage::from_keys_fold_256(test_keys),
    };
    for i in 0..23 {
        assert_eq!(params.get_key(i), test_keys[i]);
        assert_eq!(params.get_key_checked(i), Some(test_keys[i]));
    }
    assert_eq!(params.get_key(23), 0);
    assert_eq!(params.get_key(24), 0);
    assert_eq!(params.get_key(100), 0);
    assert_eq!(params.get_key_checked(23), None);
    assert_eq!(params.get_key_checked(24), None);
    assert_eq!(params.get_key_checked(100), None);
    assert_eq!(params.key_count(), 23);
}

#[test]
fn test_crc_keys_storage_const_constructors() {
    let test_keys_23: [u64; 23] = [1; 23];
    let test_keys_25: [u64; 25] = [2; 25];
    let storage_256 = CrcKeysStorage::from_keys_fold_256(test_keys_23);
    let storage_future = CrcKeysStorage::from_keys_fold_future_test(test_keys_25);
    assert_eq!(storage_256.get_key(0), 1);
    assert_eq!(storage_256.key_count(), 23);
    assert_eq!(storage_future.get_key(0), 2);
    assert_eq!(storage_future.key_count(), 25);
}

#[test]
fn test_crc_keys_storage_bounds_safety() {
    let storage_256 = CrcKeysStorage::from_keys_fold_256([42; 23]);
    let storage_future = CrcKeysStorage::from_keys_fold_future_test([84; 25]);
    assert_eq!(storage_256.get_key(22), 42);
    assert_eq!(storage_256.get_key(23), 0);
    assert_eq!(storage_future.get_key(24), 84);
    assert_eq!(storage_future.get_key(25), 0);
    assert_eq!(storage_256.get_key(usize::MAX), 0);
    assert_eq!(storage_future.get_key(usize::MAX), 0);
}
