//! Memoisation of folding keys.
//!
//! Keys are a function of `(width, poly, reflected)` alone, so a memo keyed
//! by that triple can hand back an earlier result in place of generating it
//! again. `KeyCache` holds such entries, with the invariant that each entry
//! is exactly what the generator gives for its key.
use vstd::prelude::*;

use crate::generate::{generated_keys, keys};
use crate::model::valid_width;

verus! {

/// The parameters that determine the folding keys.
#[derive(Debug, Clone, Copy, PartialEq, Eq, Hash, Structural)]
pub struct CrcParamsCacheKey {
    /// CRC width in bits (32 or 64).
    pub width: u8,
    /// The polynomial.
    pub poly: u64,
    /// Whether input and output are bit-reflected.
    pub reflected: bool,
}

impl CrcParamsCacheKey {
    /// A cache key for the given parameters.
    pub fn new(width: u8, poly: u64, reflected: bool) -> (r: Self)
        ensures
            r == (CrcParamsCacheKey { width, poly, reflected }),
    {
        CrcParamsCacheKey { width, poly, reflected }
    }
}

/// The keys for `(width, poly, reflected)`.
pub fn get_or_generate_keys(width: u8, poly: u64, reflected: bool) -> (r: [u64; 23])
    requires
        valid_width(width),
    ensures
        r@ == generated_keys(width, poly, reflected),
{
    keys(width, poly, reflected)
}

/// A memo from cache keys to generated folding keys.
pub struct KeyCache {
    entries: Vec<(CrcParamsCacheKey, [u64; 23])>,
}

impl KeyCache {
    /// The entries, in order of insertion.
    pub closed spec fn entries(&self) -> Seq<(CrcParamsCacheKey, [u64; 23])> {
        self.entries@
    }

    /// Every entry holds the generated keys of its cache key, and no cache
    /// key occurs twice.
    pub open spec fn wf(&self) -> bool {
        &&& forall|i: int|
            0 <= i < self.entries().len() ==> {
                let e = #[trigger] self.entries()[i];
                valid_width(e.0.width) && e.1@ == generated_keys(e.0.width, e.0.poly, e.0.reflected)
            }
        &&& forall|i: int, j: int|
            0 <= i < j < self.entries().len() ==> #[trigger] self.entries()[i].0
                != #[trigger] self.entries()[j].0
    }

    /// An empty cache.
    pub fn new() -> (r: Self)
        ensures
            r.wf(),
            r.entries().len() == 0,
    {
        KeyCache { entries: Vec::new() }
    }

    /// The number of parameter sets held.
    pub fn len(&self) -> (r: usize)
        ensures
            r == self.entries().len(),
    {
        self.entries.len()
    }

    /// Removes every entry.
    pub fn clear(&mut self)
        ensures
            final(self).wf(),
            final(self).entries().len() == 0,
    {
        self.entries = Vec::new();
    }

    /// Whether keys for `key` are held.
    pub fn contains(&self, key: CrcParamsCacheKey) -> (r: bool)
        ensures
            r == (exists|i: int| 0 <= i < self.entries().len() && self.entries()[i].0 == key),
    {
        let mut i: usize = 0;
        while i < self.entries.len()
            invariant
                i <= self.entries@.len(),
                forall|j: int| 0 <= j < i ==> self.entries()[j].0 != key,
            decreases self.entries@.len() - i,
        {
            let entry = self.entries[i];
            if entry.0.width == key.width && entry.0.poly == key.poly && entry.0.reflected
                == key.reflected {
                assert(self.entries()[i as int].0 == key);
                return true;
            }
            i = i + 1;
        }
        false
    }

    /// The keys for `(width, poly, reflected)`, from the cache where they are
    /// held, else generated and then held.
    pub fn get_or_generate(&mut self, width: u8, poly: u64, reflected: bool) -> (r: [u64; 23])
        requires
            old(self).wf(),
            valid_width(width),
        ensures
            final(self).wf(),
            r@ == generated_keys(width, poly, reflected),
            exists|i: int|
                0 <= i < final(self).entries().len() && final(self).entries()[i].0 == (
                CrcParamsCacheKey { width, poly, reflected }),
    {
        let key = CrcParamsCacheKey::new(width, poly, reflected);
        let mut i: usize = 0;
        while i < self.entries.len()
            invariant
                self.wf(),
                valid_width(width),
                key == (CrcParamsCacheKey { width, poly, reflected }),
                i <= self.entries@.len(),
                forall|j: int| 0 <= j < i ==> self.entries()[j].0 != key,
            decreases self.entries@.len() - i,
        {
            let entry = self.entries[i];
            if entry.0.width == width && entry.0.poly == poly && entry.0.reflected == reflected {
                assert(self.entries()[i as int] == entry);
                assert(entry.0 == key);
                assert(entry.1@ == generated_keys(width, poly, reflected));
                return entry.1;
            }
            i = i + 1;
        }
        let generated = keys(width, poly, reflected);
        let ghost before = self.entries();
        self.entries.push((key, generated));
        assert(self.entries()[before.len() as int].0 == key);
        assert forall|a: int, b: int|
            0 <= a < b < self.entries().len() implies #[trigger] self.entries()[a].0
            != #[trigger] self.entries()[b].0 by {
            if b < before.len() {
                assert(self.entries()[a] == before[a]);
                assert(self.entries()[b] == before[b]);
            } else {
                assert(self.entries()[a] == before[a]);
                assert(before[a].0 != key);
            }
        }
        generated
    }
}

} // verus!
