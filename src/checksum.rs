//! One-shot checksums, checksum combination and the streaming digest.
use vstd::prelude::*;

use crate::engine::{make_register_poly, shift_register, update_raw};
use crate::model::{combine_checksums, crc_raw, valid_width};
use crate::params::{
    catalogue, get_calculator_params, is_catalogued, lookup_variant, params_match, CrcAlgorithm,
    CrcParams,
};

verus! {

/// The checksum of `data` under the given parameters: the raw state from
/// `init`, xored with `xorout`.
pub open spec fn checksum_spec(
    width: u8,
    poly: u64,
    reflected: bool,
    init: u64,
    xorout: u64,
    data: Seq<u8>,
) -> u64 {
    crc_raw(width, poly, reflected, init, data) ^ xorout
}

/// The checksum of `data` under a catalogued variant.
pub open spec fn algorithm_checksum(algorithm: CrcAlgorithm, data: Seq<u8>) -> u64 {
    let v = catalogue(algorithm);
    checksum_spec(v.width, v.poly, v.reflected, v.init, v.xorout, data)
}

/// The checksum of `data` under custom parameters.
pub open spec fn params_checksum(params: CrcParams, data: Seq<u8>) -> u64 {
    checksum_spec(params.width, params.poly, params.refin, params.init, params.xorout, data)
}

/// Computes the checksum of `buf` with a catalogued algorithm.
pub fn checksum(algorithm: CrcAlgorithm, buf: &[u8]) -> (r: u64)
    requires
        is_catalogued(algorithm),
    ensures
        r == algorithm_checksum(algorithm, buf@),
{
    let v = lookup_variant(algorithm);
    update_raw(v.width, v.poly, v.reflected, v.init, buf) ^ v.xorout
}

/// Computes the checksum of `buf` with custom parameters.
pub fn checksum_with_params(params: CrcParams, buf: &[u8]) -> (r: u64)
    requires
        params.valid(),
    ensures
        r == params_checksum(params, buf@),
{
    update_raw(params.width, params.poly, params.refin, params.init, buf) ^ params.xorout
}

/// The checksum of a concatenation `A ‖ B` from `checksum1` of `A` and
/// `checksum2` of `B`, where `B` has `checksum2_len` bytes.
fn combine_checksums_exec(
    width: u8,
    poly: u64,
    reflected: bool,
    init: u64,
    xorout: u64,
    checksum1: u64,
    checksum2: u64,
    checksum2_len: u64,
) -> (r: u64)
    requires
        valid_width(width),
    ensures
        r == combine_checksums(
            width,
            poly,
            reflected,
            init,
            xorout,
            checksum1,
            checksum2,
            checksum2_len as nat,
        ),
{
    let rp = make_register_poly(width, poly, reflected);
    shift_register(width, rp, reflected, checksum1 ^ xorout ^ init, checksum2_len) ^ checksum2
}

/// Combines the checksums of two byte strings into the checksum of their
/// concatenation, for a catalogued algorithm.
pub fn checksum_combine(
    algorithm: CrcAlgorithm,
    checksum1: u64,
    checksum2: u64,
    checksum2_len: u64,
) -> (r: u64)
    requires
        is_catalogued(algorithm),
    ensures
        ({
            let v = catalogue(algorithm);
            r == combine_checksums(
                v.width,
                v.poly,
                v.reflected,
                v.init,
                v.xorout,
                checksum1,
                checksum2,
                checksum2_len as nat,
            )
        }),
{
    let v = lookup_variant(algorithm);
    combine_checksums_exec(
        v.width,
        v.poly,
        v.reflected,
        v.init,
        v.xorout,
        checksum1,
        checksum2,
        checksum2_len,
    )
}

/// Combines the checksums of two byte strings into the checksum of their
/// concatenation, with custom parameters.
pub fn checksum_combine_with_params(
    params: CrcParams,
    checksum1: u64,
    checksum2: u64,
    checksum2_len: u64,
) -> (r: u64)
    requires
        params.valid(),
    ensures
        r == combine_checksums(
            params.width,
            params.poly,
            params.refin,
            params.init,
            params.xorout,
            checksum1,
            checksum2,
            checksum2_len as nat,
        ),
{
    combine_checksums_exec(
        params.width,
        params.poly,
        params.refin,
        params.init,
        params.xorout,
        checksum1,
        checksum2,
        checksum2_len,
    )
}

/// A streaming CRC computation.
#[derive(Copy, Clone, Debug)]
pub struct Digest {
    /// The raw (not xored-out) state.
    state: u64,
    /// The number of bytes processed.
    amount: u64,
    /// The parameters of the computation.
    params: CrcParams,
}

impl Digest {
    /// The raw state.
    pub closed spec fn state(&self) -> u64 {
        self.state
    }

    /// The number of bytes processed.
    pub closed spec fn amount(&self) -> u64 {
        self.amount
    }

    /// The parameters of the computation.
    pub closed spec fn params(&self) -> CrcParams {
        self.params
    }

    /// The digest computes with valid parameters.
    pub open spec fn wf(&self) -> bool {
        self.params().valid()
    }

    /// The raw state after `data`, from this digest's state.
    pub open spec fn state_after(&self, data: Seq<u8>) -> u64 {
        crc_raw(self.params().width, self.params().poly, self.params().refin, self.state(), data)
    }

    /// A digest for a catalogued algorithm.
    pub fn new(algorithm: CrcAlgorithm) -> (r: Self)
        requires
            is_catalogued(algorithm),
        ensures
            r.wf(),
            params_match(r.params(), catalogue(algorithm)),
            r.params().algorithm == algorithm,
            r.state() == catalogue(algorithm).init,
            r.amount() == 0,
    {
        let params = get_calculator_params(algorithm);
        Digest { state: params.init, amount: 0, params }
    }

    /// A digest for a catalogued algorithm that starts from the raw state
    /// `init_state` in place of the algorithm's `init`.
    pub fn new_with_init_state(algorithm: CrcAlgorithm, init_state: u64) -> (r: Self)
        requires
            is_catalogued(algorithm),
        ensures
            r.wf(),
            params_match(r.params(), catalogue(algorithm)),
            r.params().algorithm == algorithm,
            r.state() == init_state,
            r.amount() == 0,
    {
        let params = get_calculator_params(algorithm);
        Digest { state: init_state, amount: 0, params }
    }

    /// A digest with custom parameters.
    pub fn new_with_params(params: CrcParams) -> (r: Self)
        requires
            params.valid(),
        ensures
            r.wf(),
            r.params() == params,
            r.state() == params.init,
            r.amount() == 0,
    {
        Digest { state: params.init, amount: 0, params }
    }

    /// Feeds `data` to the digest.
    pub fn update(&mut self, data: &[u8])
        requires
            old(self).wf(),
            old(self).amount() + data@.len() <= u64::MAX,
        ensures
            final(self).wf(),
            final(self).params() == old(self).params(),
            final(self).state() == old(self).state_after(data@),
            final(self).amount() == old(self).amount() + data@.len(),
    {
        self.state = update_raw(
            self.params.width,
            self.params.poly,
            self.params.refin,
            self.state,
            data,
        );
        self.amount = self.amount + data.len() as u64;
    }

    /// The checksum of what was fed so far.
    pub fn finalize(&self) -> (r: u64)
        ensures
            r == self.state() ^ self.params().xorout,
    {
        self.state ^ self.params.xorout
    }

    /// The checksum of what was fed so far; the digest then starts over.
    pub fn finalize_reset(&mut self) -> (r: u64)
        ensures
            r == old(self).state() ^ old(self).params().xorout,
            final(self).params() == old(self).params(),
            final(self).state() == old(self).params().init,
            final(self).amount() == 0,
    {
        let result = self.finalize();
        self.reset();
        result
    }

    /// Starts over: the state returns to `init` and the amount to zero.
    pub fn reset(&mut self)
        ensures
            final(self).params() == old(self).params(),
            final(self).state() == old(self).params().init,
            final(self).amount() == 0,
    {
        self.state = self.params.init;
        self.amount = 0;
    }

    /// Absorbs the work of `other`, as if its bytes had been fed after this
    /// digest's own.
    pub fn combine(&mut self, other: &Self)
        requires
            old(self).wf(),
            old(self).amount() + other.amount() <= u64::MAX,
        ensures
            final(self).wf(),
            final(self).params() == old(self).params(),
            final(self).amount() == old(self).amount() + other.amount(),
            ({
                let p = old(self).params();
                final(self).state() == combine_checksums(
                    p.width,
                    p.poly,
                    p.refin,
                    p.init,
                    p.xorout,
                    old(self).state() ^ p.xorout,
                    other.state() ^ other.params().xorout,
                    other.amount() as nat,
                ) ^ p.xorout
            }),
    {
        self.amount = self.amount + other.amount;
        let other_crc = other.finalize();
        self.state = combine_checksums_exec(
            self.params.width,
            self.params.poly,
            self.params.refin,
            self.params.init,
            self.params.xorout,
            self.state ^ self.params.xorout,
            other_crc,
            other.amount,
        ) ^ self.params.xorout;
    }

    /// The number of bytes processed.
    pub fn get_amount(&self) -> (r: u64)
        ensures
            r == self.amount(),
    {
        self.amount
    }

    /// The raw (not xored-out) state.
    pub fn get_state(&self) -> (r: u64)
        ensures
            r == self.state(),
    {
        self.state
    }

    /// The parameters of the computation.
    pub fn get_params(&self) -> (r: CrcParams)
        ensures
            r == self.params(),
    {
        self.params
    }
}

} // verus!
