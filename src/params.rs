//! CRC variants: the catalogue, the key storage and the parameter record.
use vstd::prelude::*;

use crate::cache::get_or_generate_keys;
use crate::generate::generated_keys;
use crate::model::valid_width;

verus! {

/// Supported CRC-32 and CRC-64 variants.
#[derive(Debug, Clone, Copy, PartialEq, Eq, Structural)]
pub enum CrcAlgorithm {
    Crc32Aixm,
    Crc32Autosar,
    Crc32Base91D,
    Crc32Bzip2,
    Crc32CdRomEdc,
    Crc32Cksum,
    /// A CRC-32 whose parameters were given to `CrcParams::new`.
    Crc32Custom,
    Crc32Iscsi,
    Crc32IsoHdlc,
    Crc32Jamcrc,
    Crc32Mef,
    Crc32Mpeg2,
    Crc32Xfer,
    /// A CRC-64 whose parameters were given to `CrcParams::new`.
    Crc64Custom,
    Crc64Ecma182,
    Crc64GoIso,
    Crc64Ms,
    Crc64Nvme,
    Crc64Redis,
    Crc64We,
    Crc64Xz,
}

/// The Rocksoft parameters of a variant (without its folding keys).
#[derive(Debug, Clone, Copy, PartialEq, Eq, Structural)]
pub struct CrcVariant {
    pub width: u8,
    pub poly: u64,
    pub init: u64,
    pub reflected: bool,
    pub xorout: u64,
    pub check: u64,
}

/// A variant of the catalogue, as opposed to the two custom tags.
pub open spec fn is_catalogued(algorithm: CrcAlgorithm) -> bool {
    algorithm != CrcAlgorithm::Crc32Custom && algorithm != CrcAlgorithm::Crc64Custom
}

/// The Rocksoft parameters as one value.
pub open spec fn variant(
    width: u8,
    poly: u64,
    init: u64,
    reflected: bool,
    xorout: u64,
    check: u64,
) -> CrcVariant {
    CrcVariant { width, poly, init, reflected, xorout, check }
}

/// The catalogue of CRC variants.
pub open spec fn catalogue(algorithm: CrcAlgorithm) -> CrcVariant {
    match algorithm {
        CrcAlgorithm::Crc32Aixm => variant(32, 0x814141ab, 0, false, 0, 0x3010bf7f),
        CrcAlgorithm::Crc32Autosar => variant(
            32,
            0xf4acfb13,
            0xffffffff,
            true,
            0xffffffff,
            0x1697d06a,
        ),
        CrcAlgorithm::Crc32Base91D => variant(
            32,
            0xa833982b,
            0xffffffff,
            true,
            0xffffffff,
            0x87315576,
        ),
        CrcAlgorithm::Crc32Bzip2 => variant(
            32,
            0x04c11db7,
            0xffffffff,
            false,
            0xffffffff,
            0xfc891918,
        ),
        CrcAlgorithm::Crc32CdRomEdc => variant(32, 0x8001801b, 0, true, 0, 0x6ec2edc4),
        CrcAlgorithm::Crc32Cksum => variant(32, 0x04c11db7, 0, false, 0xffffffff, 0x765e7680),
        CrcAlgorithm::Crc32Custom => variant(32, 0, 0, false, 0, 0),
        CrcAlgorithm::Crc32Iscsi => variant(
            32,
            0x1edc6f41,
            0xffffffff,
            true,
            0xffffffff,
            0xe3069283,
        ),
        CrcAlgorithm::Crc32IsoHdlc => variant(
            32,
            0x04c11db7,
            0xffffffff,
            true,
            0xffffffff,
            0xcbf43926,
        ),
        CrcAlgorithm::Crc32Jamcrc => variant(32, 0x04c11db7, 0xffffffff, true, 0, 0x340bc6d9),
        CrcAlgorithm::Crc32Mef => variant(32, 0x741b8cd7, 0xffffffff, true, 0, 0xd2c22f51),
        CrcAlgorithm::Crc32Mpeg2 => variant(32, 0x04c11db7, 0xffffffff, false, 0, 0x0376e6e7),
        CrcAlgorithm::Crc32Xfer => variant(32, 0xaf, 0, false, 0, 0xbd0be338),
        CrcAlgorithm::Crc64Custom => variant(64, 0, 0, false, 0, 0),
        CrcAlgorithm::Crc64Ecma182 => variant(
            64,
            0x42f0e1eba9ea3693,
            0,
            false,
            0,
            0x6c40df5f0b497347,
        ),
        CrcAlgorithm::Crc64GoIso => variant(
            64,
            0x1b,
            0xffffffffffffffff,
            true,
            0xffffffffffffffff,
            0xb90956c775a41001,
        ),
        CrcAlgorithm::Crc64Ms => variant(
            64,
            0x259c84cba6426349,
            0xffffffffffffffff,
            true,
            0,
            0x75d4b74f024eceea,
        ),
        CrcAlgorithm::Crc64Nvme => variant(
            64,
            0xad93d23594c93659,
            0xffffffffffffffff,
            true,
            0xffffffffffffffff,
            0xae8b14860a799888,
        ),
        CrcAlgorithm::Crc64Redis => variant(
            64,
            0xad93d23594c935a9,
            0,
            true,
            0,
            0xe9c6d914c4b8d9ca,
        ),
        CrcAlgorithm::Crc64We => variant(
            64,
            0x42f0e1eba9ea3693,
            0xffffffffffffffff,
            false,
            0xffffffffffffffff,
            0x62ec59e3f1a4f00a,
        ),
        CrcAlgorithm::Crc64Xz => variant(
            64,
            0x42f0e1eba9ea3693,
            0xffffffffffffffff,
            true,
            0xffffffffffffffff,
            0x995dc9bbdf1939fa,
        ),
    }
}

fn make_variant(
    width: u8,
    poly: u64,
    init: u64,
    reflected: bool,
    xorout: u64,
    check: u64,
) -> (r: CrcVariant)
    ensures
        r == variant(width, poly, init, reflected, xorout, check),
{
    CrcVariant { width, poly, init, reflected, xorout, check }
}

/// The parameters of a catalogued variant.
pub fn lookup_variant(algorithm: CrcAlgorithm) -> (r: CrcVariant)
    ensures
        r == catalogue(algorithm),
        valid_width(r.width),
{
    match algorithm {
        CrcAlgorithm::Crc32Aixm => make_variant(32, 0x814141ab, 0, false, 0, 0x3010bf7f),
        CrcAlgorithm::Crc32Autosar => make_variant(
            32,
            0xf4acfb13,
            0xffffffff,
            true,
            0xffffffff,
            0x1697d06a,
        ),
        CrcAlgorithm::Crc32Base91D => make_variant(
            32,
            0xa833982b,
            0xffffffff,
            true,
            0xffffffff,
            0x87315576,
        ),
        CrcAlgorithm::Crc32Bzip2 => make_variant(
            32,
            0x04c11db7,
            0xffffffff,
            false,
            0xffffffff,
            0xfc891918,
        ),
        CrcAlgorithm::Crc32CdRomEdc => make_variant(32, 0x8001801b, 0, true, 0, 0x6ec2edc4),
        CrcAlgorithm::Crc32Cksum => make_variant(32, 0x04c11db7, 0, false, 0xffffffff, 0x765e7680),
        CrcAlgorithm::Crc32Custom => make_variant(32, 0, 0, false, 0, 0),
        CrcAlgorithm::Crc32Iscsi => make_variant(
            32,
            0x1edc6f41,
            0xffffffff,
            true,
            0xffffffff,
            0xe3069283,
        ),
        CrcAlgorithm::Crc32IsoHdlc => make_variant(
            32,
            0x04c11db7,
            0xffffffff,
            true,
            0xffffffff,
            0xcbf43926,
        ),
        CrcAlgorithm::Crc32Jamcrc => make_variant(32, 0x04c11db7, 0xffffffff, true, 0, 0x340bc6d9),
        CrcAlgorithm::Crc32Mef => make_variant(32, 0x741b8cd7, 0xffffffff, true, 0, 0xd2c22f51),
        CrcAlgorithm::Crc32Mpeg2 => make_variant(32, 0x04c11db7, 0xffffffff, false, 0, 0x0376e6e7),
        CrcAlgorithm::Crc32Xfer => make_variant(32, 0xaf, 0, false, 0, 0xbd0be338),
        CrcAlgorithm::Crc64Custom => make_variant(64, 0, 0, false, 0, 0),
        CrcAlgorithm::Crc64Ecma182 => make_variant(
            64,
            0x42f0e1eba9ea3693,
            0,
            false,
            0,
            0x6c40df5f0b497347,
        ),
        CrcAlgorithm::Crc64GoIso => make_variant(
            64,
            0x1b,
            0xffffffffffffffff,
            true,
            0xffffffffffffffff,
            0xb90956c775a41001,
        ),
        CrcAlgorithm::Crc64Ms => make_variant(
            64,
            0x259c84cba6426349,
            0xffffffffffffffff,
            true,
            0,
            0x75d4b74f024eceea,
        ),
        CrcAlgorithm::Crc64Nvme => make_variant(
            64,
            0xad93d23594c93659,
            0xffffffffffffffff,
            true,
            0xffffffffffffffff,
            0xae8b14860a799888,
        ),
        CrcAlgorithm::Crc64Redis => make_variant(
            64,
            0xad93d23594c935a9,
            0,
            true,
            0,
            0xe9c6d914c4b8d9ca,
        ),
        CrcAlgorithm::Crc64We => make_variant(
            64,
            0x42f0e1eba9ea3693,
            0xffffffffffffffff,
            false,
            0xffffffffffffffff,
            0x62ec59e3f1a4f00a,
        ),
        CrcAlgorithm::Crc64Xz => make_variant(
            64,
            0x42f0e1eba9ea3693,
            0xffffffffffffffff,
            true,
            0xffffffffffffffff,
            0x995dc9bbdf1939fa,
        ),
    }
}

/// The catalogue name of a variant.
pub fn algorithm_name(algorithm: CrcAlgorithm) -> &'static str {
    match algorithm {
        CrcAlgorithm::Crc32Aixm => "CRC-32/AIXM",
        CrcAlgorithm::Crc32Autosar => "CRC-32/AUTOSAR",
        CrcAlgorithm::Crc32Base91D => "CRC-32/BASE91-D",
        CrcAlgorithm::Crc32Bzip2 => "CRC-32/BZIP2",
        CrcAlgorithm::Crc32CdRomEdc => "CRC-32/CD-ROM-EDC",
        CrcAlgorithm::Crc32Cksum => "CRC-32/CKSUM",
        CrcAlgorithm::Crc32Custom => "CRC-32/CUSTOM",
        CrcAlgorithm::Crc32Iscsi => "CRC-32/ISCSI",
        CrcAlgorithm::Crc32IsoHdlc => "CRC-32/ISO-HDLC",
        CrcAlgorithm::Crc32Jamcrc => "CRC-32/JAMCRC",
        CrcAlgorithm::Crc32Mef => "CRC-32/MEF",
        CrcAlgorithm::Crc32Mpeg2 => "CRC-32/MPEG-2",
        CrcAlgorithm::Crc32Xfer => "CRC-32/XFER",
        CrcAlgorithm::Crc64Custom => "CRC-64/CUSTOM",
        CrcAlgorithm::Crc64Ecma182 => "CRC-64/ECMA-182",
        CrcAlgorithm::Crc64GoIso => "CRC-64/GO-ISO",
        CrcAlgorithm::Crc64Ms => "CRC-64/MS",
        CrcAlgorithm::Crc64Nvme => "CRC-64/NVME",
        CrcAlgorithm::Crc64Redis => "CRC-64/REDIS",
        CrcAlgorithm::Crc64We => "CRC-64/WE",
        CrcAlgorithm::Crc64Xz => "CRC-64/XZ",
    }
}

/// Storage for the folding keys: the current 23-key format, or a larger
/// format kept for forward compatibility.
#[derive(Clone, Copy, Debug, PartialEq, Eq)]
pub enum CrcKeysStorage {
    /// The current 23-key format (folding distances up to 256 bytes).
    KeysFold256([u64; 23]),
    /// A 25-key format for expanded folding distances.
    KeysFutureTest([u64; 25]),
}

impl CrcKeysStorage {
    /// The keys held.
    pub open spec fn key_seq(self) -> Seq<u64> {
        match self {
            CrcKeysStorage::KeysFold256(keys) => keys@,
            CrcKeysStorage::KeysFutureTest(keys) => keys@,
        }
    }

    /// Key `index`, or zero past the end.
    pub open spec fn key_or_zero(self, index: int) -> u64 {
        if 0 <= index < self.key_seq().len() {
            self.key_seq()[index]
        } else {
            0
        }
    }

    /// Key `index`; zero for an index past the end.
    pub fn get_key(self, index: usize) -> (r: u64)
        ensures
            r == self.key_or_zero(index as int),
    {
        match self {
            CrcKeysStorage::KeysFold256(keys) => {
                if index < 23 {
                    keys[index]
                } else {
                    0
                }
            },
            CrcKeysStorage::KeysFutureTest(keys) => {
                if index < 25 {
                    keys[index]
                } else {
                    0
                }
            },
        }
    }

    /// The number of keys held.
    pub fn key_count(self) -> (r: usize)
        ensures
            r == self.key_seq().len(),
    {
        match self {
            CrcKeysStorage::KeysFold256(_) => 23,
            CrcKeysStorage::KeysFutureTest(_) => 25,
        }
    }

    /// Storage in the current 23-key format.
    pub fn from_keys_fold_256(keys: [u64; 23]) -> (r: Self)
        ensures
            r == CrcKeysStorage::KeysFold256(keys),
    {
        CrcKeysStorage::KeysFold256(keys)
    }

    /// Storage in the 25-key format.
    pub fn from_keys_fold_future_test(keys: [u64; 25]) -> (r: Self)
        ensures
            r == CrcKeysStorage::KeysFutureTest(keys),
    {
        CrcKeysStorage::KeysFutureTest(keys)
    }

    /// The first 23 keys, with zero for any slot past the end.
    pub fn to_keys_array_23(self) -> (r: [u64; 23])
        ensures
            forall|i: int| 0 <= i < 23 ==> #[trigger] r@[i] == self.key_or_zero(i),
    {
        match self {
            CrcKeysStorage::KeysFold256(keys) => keys,
            CrcKeysStorage::KeysFutureTest(keys) => {
                let mut result = [0u64; 23];
                let mut i: usize = 0;
                while i < 23
                    invariant
                        i <= 23,
                        keys@.len() == 25,
                        result@.len() == 23,
                        forall|j: int| 0 <= j < i ==> #[trigger] result@[j] == keys@[j],
                    decreases 23 - i,
                {
                    result[i] = keys[i];
                    i = i + 1;
                }
                result
            },
        }
    }
}

/// Parameters for a CRC computation: the Rocksoft parameters and the
/// folding keys.
#[derive(Clone, Copy, Debug)]
pub struct CrcParams {
    pub algorithm: CrcAlgorithm,
    pub name: &'static str,
    pub width: u8,
    pub poly: u64,
    pub init: u64,
    pub refin: bool,
    pub refout: bool,
    pub xorout: u64,
    pub check: u64,
    pub keys: CrcKeysStorage,
}

/// The parameters carry the Rocksoft values of `v`.
pub open spec fn params_match(p: CrcParams, v: CrcVariant) -> bool {
    &&& p.width == v.width
    &&& p.poly == v.poly
    &&& p.init == v.init
    &&& p.refin == v.reflected
    &&& p.refout == v.reflected
    &&& p.xorout == v.xorout
    &&& p.check == v.check
}

impl CrcParams {
    /// Parameters this library can compute with: a width of 32 or 64 bits
    /// and one reflection mode for input and output.
    pub open spec fn valid(self) -> bool {
        valid_width(self.width) && self.refin == self.refout
    }

    /// Custom parameters for a set of Rocksoft parameters with one reflection
    /// flag for input and output. The keys depend only on the width, the
    /// polynomial and the reflection.
    pub fn new(
        name: &'static str,
        width: u8,
        poly: u64,
        init: u64,
        reflected: bool,
        xorout: u64,
        check: u64,
    ) -> (r: Self)
        requires
            valid_width(width),
        ensures
            r.name == name,
            params_match(r, variant(width, poly, init, reflected, xorout, check)),
            r.algorithm == (if width == 32 {
                CrcAlgorithm::Crc32Custom
            } else {
                CrcAlgorithm::Crc64Custom
            }),
            r.keys == CrcKeysStorage::KeysFold256(r.keys->KeysFold256_0),
            r.keys.key_seq() == generated_keys(width, poly, reflected),
    {
        let keys_array = get_or_generate_keys(width, poly, reflected);
        let keys = CrcKeysStorage::from_keys_fold_256(keys_array);
        let algorithm = if width == 32 {
            CrcAlgorithm::Crc32Custom
        } else {
            CrcAlgorithm::Crc64Custom
        };
        CrcParams {
            algorithm,
            name,
            width,
            poly,
            init,
            refin: reflected,
            refout: reflected,
            xorout,
            check,
            keys,
        }
    }

    /// Key `index`; zero for an index past the end.
    pub fn get_key(self, index: usize) -> (r: u64)
        ensures
            r == self.keys.key_or_zero(index as int),
    {
        self.keys.get_key(index)
    }

    /// Key `index`, or `None` for an index past the end.
    pub fn get_key_checked(self, index: usize) -> (r: Option<u64>)
        ensures
            index < self.keys.key_seq().len() ==> r == Some(self.keys.key_seq()[index as int]),
            index >= self.keys.key_seq().len() ==> r.is_none(),
    {
        if index < self.keys.key_count() {
            Some(self.keys.get_key(index))
        } else {
            None
        }
    }

    /// The number of keys held.
    pub fn key_count(self) -> (r: usize)
        ensures
            r == self.keys.key_seq().len(),
    {
        self.keys.key_count()
    }
}

/// The parameters, with keys, of a catalogued variant.
pub fn get_calculator_params(algorithm: CrcAlgorithm) -> (r: CrcParams)
    requires
        is_catalogued(algorithm),
    ensures
        r.algorithm == algorithm,
        params_match(r, catalogue(algorithm)),
        r.keys.key_seq() == generated_keys(r.width, r.poly, r.refin),
        r.valid(),
{
    let v = lookup_variant(algorithm);
    let keys_array = get_or_generate_keys(v.width, v.poly, v.reflected);
    CrcParams {
        algorithm,
        name: algorithm_name(algorithm),
        width: v.width,
        poly: v.poly,
        init: v.init,
        refin: v.reflected,
        refout: v.reflected,
        xorout: v.xorout,
        check: v.check,
        keys: CrcKeysStorage::KeysFold256(keys_array),
    }
}

/// The CRC-32 width.
#[derive(Clone, Copy)]
pub struct Width32;

impl Width32 {
    /// The width in bits.
    pub fn bits(&self) -> (r: u32)
        ensures
            r == 32,
    {
        32
    }
}

/// The CRC-64 width.
#[derive(Clone, Copy)]
pub struct Width64;

impl Width64 {
    /// The width in bits.
    pub fn bits(&self) -> (r: u32)
        ensures
            r == 64,
    {
        64
    }
}

/// A folding accumulator together with its reflection mode.
#[derive(Debug, Clone, Copy)]
pub struct CrcState<T> {
    pub value: T,
    pub reflected: bool,
}

} // verus!
