//! The plain-data side of the C interface: error codes, algorithm tags and
//! the custom-parameter record, with their conversions to the library's
//! own types.
use vstd::prelude::*;

use crate::params::{CrcAlgorithm, CrcKeysStorage, CrcParams};

verus! {

/// Error codes of the C interface.
#[derive(Debug, Clone, Copy, PartialEq, Eq, Structural)]
pub enum CrcFastError {
    /// Operation completed successfully
    Success,
    /// Lock was poisoned (thread panicked while holding lock)
    LockPoisoned,
    /// Null pointer was passed where non-null required
    NullPointer,
    /// Invalid key count for CRC parameters
    InvalidKeyCount,
    /// Unsupported CRC width (must be 32 or 64)
    UnsupportedWidth,
    /// Invalid UTF-8 string
    InvalidUtf8,
    /// File I/O error
    IoError,
    /// Internal string conversion error
    StringConversionError,
}

/// The message of an error code.
pub open spec fn error_message(e: CrcFastError) -> Seq<char> {
    match e {
        CrcFastError::Success => "Operation completed successfully"@,
        CrcFastError::LockPoisoned => "Lock was poisoned (thread panicked while holding lock)"@,
        CrcFastError::NullPointer => "Null pointer was passed where non-null required"@,
        CrcFastError::InvalidKeyCount => "Invalid key count for CRC parameters"@,
        CrcFastError::UnsupportedWidth => "Unsupported CRC width (must be 32 or 64)"@,
        CrcFastError::InvalidUtf8 => "Invalid UTF-8 string"@,
        CrcFastError::IoError => "File I/O error"@,
        CrcFastError::StringConversionError => "Internal string conversion error"@,
    }
}

impl CrcFastError {
    /// A static description of the error.
    pub fn message(&self) -> (r: &'static str)
        ensures
            r@ == error_message(*self),
    {
        match self {
            CrcFastError::Success => "Operation completed successfully",
            CrcFastError::LockPoisoned => "Lock was poisoned (thread panicked while holding lock)",
            CrcFastError::NullPointer => "Null pointer was passed where non-null required",
            CrcFastError::InvalidKeyCount => "Invalid key count for CRC parameters",
            CrcFastError::UnsupportedWidth => "Unsupported CRC width (must be 32 or 64)",
            CrcFastError::InvalidUtf8 => "Invalid UTF-8 string",
            CrcFastError::IoError => "File I/O error",
            CrcFastError::StringConversionError => "Internal string conversion error",
        }
    }
}

/// The algorithm tags of the C interface, one for each `CrcAlgorithm`.
#[derive(Debug, Clone, Copy, PartialEq, Eq, Structural)]
pub enum CrcFastAlgorithm {
    Crc32Aixm,
    Crc32Autosar,
    Crc32Base91D,
    Crc32Bzip2,
    Crc32CdRomEdc,
    Crc32Cksum,
    Crc32Custom,
    Crc32Iscsi,
    Crc32IsoHdlc,
    Crc32Jamcrc,
    Crc32Mef,
    Crc32Mpeg2,
    Crc32Xfer,
    Crc64Custom,
    Crc64Ecma182,
    Crc64GoIso,
    Crc64Ms,
    Crc64Nvme,
    Crc64Redis,
    Crc64We,
    Crc64Xz,
}

/// The library tag of a C interface tag.
pub open spec fn algorithm_of(a: CrcFastAlgorithm) -> CrcAlgorithm {
    match a {
        CrcFastAlgorithm::Crc32Aixm => CrcAlgorithm::Crc32Aixm,
        CrcFastAlgorithm::Crc32Autosar => CrcAlgorithm::Crc32Autosar,
        CrcFastAlgorithm::Crc32Base91D => CrcAlgorithm::Crc32Base91D,
        CrcFastAlgorithm::Crc32Bzip2 => CrcAlgorithm::Crc32Bzip2,
        CrcFastAlgorithm::Crc32CdRomEdc => CrcAlgorithm::Crc32CdRomEdc,
        CrcFastAlgorithm::Crc32Cksum => CrcAlgorithm::Crc32Cksum,
        CrcFastAlgorithm::Crc32Custom => CrcAlgorithm::Crc32Custom,
        CrcFastAlgorithm::Crc32Iscsi => CrcAlgorithm::Crc32Iscsi,
        CrcFastAlgorithm::Crc32IsoHdlc => CrcAlgorithm::Crc32IsoHdlc,
        CrcFastAlgorithm::Crc32Jamcrc => CrcAlgorithm::Crc32Jamcrc,
        CrcFastAlgorithm::Crc32Mef => CrcAlgorithm::Crc32Mef,
        CrcFastAlgorithm::Crc32Mpeg2 => CrcAlgorithm::Crc32Mpeg2,
        CrcFastAlgorithm::Crc32Xfer => CrcAlgorithm::Crc32Xfer,
        CrcFastAlgorithm::Crc64Custom => CrcAlgorithm::Crc64Custom,
        CrcFastAlgorithm::Crc64Ecma182 => CrcAlgorithm::Crc64Ecma182,
        CrcFastAlgorithm::Crc64GoIso => CrcAlgorithm::Crc64GoIso,
        CrcFastAlgorithm::Crc64Ms => CrcAlgorithm::Crc64Ms,
        CrcFastAlgorithm::Crc64Nvme => CrcAlgorithm::Crc64Nvme,
        CrcFastAlgorithm::Crc64Redis => CrcAlgorithm::Crc64Redis,
        CrcFastAlgorithm::Crc64We => CrcAlgorithm::Crc64We,
        CrcFastAlgorithm::Crc64Xz => CrcAlgorithm::Crc64Xz,
    }
}

impl CrcFastAlgorithm {
    /// The library tag.
    pub fn to_algorithm(self) -> (r: CrcAlgorithm)
        ensures
            r == algorithm_of(self),
    {
        match self {
            CrcFastAlgorithm::Crc32Aixm => CrcAlgorithm::Crc32Aixm,
            CrcFastAlgorithm::Crc32Autosar => CrcAlgorithm::Crc32Autosar,
            CrcFastAlgorithm::Crc32Base91D => CrcAlgorithm::Crc32Base91D,
            CrcFastAlgorithm::Crc32Bzip2 => CrcAlgorithm::Crc32Bzip2,
            CrcFastAlgorithm::Crc32CdRomEdc => CrcAlgorithm::Crc32CdRomEdc,
            CrcFastAlgorithm::Crc32Cksum => CrcAlgorithm::Crc32Cksum,
            CrcFastAlgorithm::Crc32Custom => CrcAlgorithm::Crc32Custom,
            CrcFastAlgorithm::Crc32Iscsi => CrcAlgorithm::Crc32Iscsi,
            CrcFastAlgorithm::Crc32IsoHdlc => CrcAlgorithm::Crc32IsoHdlc,
            CrcFastAlgorithm::Crc32Jamcrc => CrcAlgorithm::Crc32Jamcrc,
            CrcFastAlgorithm::Crc32Mef => CrcAlgorithm::Crc32Mef,
            CrcFastAlgorithm::Crc32Mpeg2 => CrcAlgorithm::Crc32Mpeg2,
            CrcFastAlgorithm::Crc32Xfer => CrcAlgorithm::Crc32Xfer,
            CrcFastAlgorithm::Crc64Custom => CrcAlgorithm::Crc64Custom,
            CrcFastAlgorithm::Crc64Ecma182 => CrcAlgorithm::Crc64Ecma182,
            CrcFastAlgorithm::Crc64GoIso => CrcAlgorithm::Crc64GoIso,
            CrcFastAlgorithm::Crc64Ms => CrcAlgorithm::Crc64Ms,
            CrcFastAlgorithm::Crc64Nvme => CrcAlgorithm::Crc64Nvme,
            CrcFastAlgorithm::Crc64Redis => CrcAlgorithm::Crc64Redis,
            CrcFastAlgorithm::Crc64We => CrcAlgorithm::Crc64We,
            CrcFastAlgorithm::Crc64Xz => CrcAlgorithm::Crc64Xz,
        }
    }

    /// The C interface tag of a library tag.
    pub fn from_algorithm(a: CrcAlgorithm) -> (r: Self)
        ensures
            algorithm_of(r) == a,
    {
        match a {
            CrcAlgorithm::Crc32Aixm => CrcFastAlgorithm::Crc32Aixm,
            CrcAlgorithm::Crc32Autosar => CrcFastAlgorithm::Crc32Autosar,
            CrcAlgorithm::Crc32Base91D => CrcFastAlgorithm::Crc32Base91D,
            CrcAlgorithm::Crc32Bzip2 => CrcFastAlgorithm::Crc32Bzip2,
            CrcAlgorithm::Crc32CdRomEdc => CrcFastAlgorithm::Crc32CdRomEdc,
            CrcAlgorithm::Crc32Cksum => CrcFastAlgorithm::Crc32Cksum,
            CrcAlgorithm::Crc32Custom => CrcFastAlgorithm::Crc32Custom,
            CrcAlgorithm::Crc32Iscsi => CrcFastAlgorithm::Crc32Iscsi,
            CrcAlgorithm::Crc32IsoHdlc => CrcFastAlgorithm::Crc32IsoHdlc,
            CrcAlgorithm::Crc32Jamcrc => CrcFastAlgorithm::Crc32Jamcrc,
            CrcAlgorithm::Crc32Mef => CrcFastAlgorithm::Crc32Mef,
            CrcAlgorithm::Crc32Mpeg2 => CrcFastAlgorithm::Crc32Mpeg2,
            CrcAlgorithm::Crc32Xfer => CrcFastAlgorithm::Crc32Xfer,
            CrcAlgorithm::Crc64Custom => CrcFastAlgorithm::Crc64Custom,
            CrcAlgorithm::Crc64Ecma182 => CrcFastAlgorithm::Crc64Ecma182,
            CrcAlgorithm::Crc64GoIso => CrcFastAlgorithm::Crc64GoIso,
            CrcAlgorithm::Crc64Ms => CrcFastAlgorithm::Crc64Ms,
            CrcAlgorithm::Crc64Nvme => CrcFastAlgorithm::Crc64Nvme,
            CrcAlgorithm::Crc64Redis => CrcFastAlgorithm::Crc64Redis,
            CrcAlgorithm::Crc64We => CrcFastAlgorithm::Crc64We,
            CrcAlgorithm::Crc64Xz => CrcFastAlgorithm::Crc64Xz,
        }
    }
}

/// Custom CRC parameters as the C interface carries them: the key array
/// with its declared count.
#[derive(Debug, Clone)]
pub struct CrcFastParams {
    pub algorithm: CrcFastAlgorithm,
    pub width: u8,
    pub poly: u64,
    pub init: u64,
    pub refin: bool,
    pub refout: bool,
    pub xorout: u64,
    pub check: u64,
    pub key_count: u32,
    pub keys: Vec<u64>,
}

/// The key count names a format this library can read, and the keys are
/// that many.
pub open spec fn ffi_keys_readable(value: &CrcFastParams) -> bool {
    (value.key_count == 23 || value.key_count == 25) && value.keys@.len() == value.key_count
}

impl CrcFastParams {
    /// The C interface record of `params`.
    pub fn from_params(params: CrcParams) -> (r: Self)
        ensures
            algorithm_of(r.algorithm) == params.algorithm,
            r.width == params.width,
            r.poly == params.poly,
            r.init == params.init,
            r.refin == params.refin,
            r.refout == params.refout,
            r.xorout == params.xorout,
            r.check == params.check,
            r.keys@ == params.keys.key_seq(),
            r.key_count == params.keys.key_seq().len(),
    {
        let n = params.keys.key_count();
        let mut keys: Vec<u64> = Vec::new();
        let mut i: usize = 0;
        while i < n
            invariant
                n == params.keys.key_seq().len(),
                i <= n,
                keys@ == params.keys.key_seq().subrange(0, i as int),
            decreases n - i,
        {
            keys.push(params.keys.get_key(i));
            i = i + 1;
        }
        assert(params.keys.key_seq().subrange(0, n as int) =~= params.keys.key_seq());
        CrcFastParams {
            algorithm: CrcFastAlgorithm::from_algorithm(params.algorithm),
            width: params.width,
            poly: params.poly,
            init: params.init,
            refin: params.refin,
            refout: params.refout,
            xorout: params.xorout,
            check: params.check,
            key_count: n as u32,
            keys,
        }
    }
}

/// Parameters from the C interface record, or `None` when its keys cannot
/// be read (a count other than 23 or 25, or keys that do not match it).
pub fn try_params_from_ffi(value: &CrcFastParams) -> (r: Option<CrcParams>)
    ensures
        r.is_some() == ffi_keys_readable(value),
        r.is_some() ==> ({
            let p = r.unwrap();
            &&& p.algorithm == algorithm_of(value.algorithm)
            &&& p.width == value.width
            &&& p.poly == value.poly
            &&& p.init == value.init
            &&& p.refin == value.refin
            &&& p.refout == value.refout
            &&& p.xorout == value.xorout
            &&& p.check == value.check
            &&& p.keys.key_seq() == value.keys@
        }),
{
    if value.keys.len() != value.key_count as usize {
        return None;
    }
    let storage = if value.key_count == 23 {
        let mut arr = [0u64; 23];
        let mut i: usize = 0;
        while i < 23
            invariant
                i <= 23,
                value.keys@.len() == 23,
                arr@.len() == 23,
                forall|j: int| 0 <= j < i ==> #[trigger] arr@[j] == value.keys@[j],
            decreases 23 - i,
        {
            arr[i] = value.keys[i];
            i = i + 1;
        }
        assert(arr@ =~= value.keys@);
        CrcKeysStorage::KeysFold256(arr)
    } else if value.key_count == 25 {
        let mut arr = [0u64; 25];
        let mut i: usize = 0;
        while i < 25
            invariant
                i <= 25,
                value.keys@.len() == 25,
                arr@.len() == 25,
                forall|j: int| 0 <= j < i ==> #[trigger] arr@[j] == value.keys@[j],
            decreases 25 - i,
        {
            arr[i] = value.keys[i];
            i = i + 1;
        }
        assert(arr@ =~= value.keys@);
        CrcKeysStorage::KeysFutureTest(arr)
    } else {
        return None;
    };
    Some(
        CrcParams {
            algorithm: value.algorithm.to_algorithm(),
            name: "custom",
            width: value.width,
            poly: value.poly,
            init: value.init,
            refin: value.refin,
            refout: value.refout,
            xorout: value.xorout,
            check: value.check,
            keys: storage,
        },
    )
}

} // verus!
