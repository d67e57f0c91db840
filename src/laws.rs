//! Laws that relate the operations of the library, proved over the model.
use vstd::prelude::*;

use crate::checksum::{algorithm_checksum, checksum_spec, params_checksum, Digest};
use crate::params::{catalogue, is_catalogued, CrcAlgorithm};
use crate::generate::generated_keys;
use crate::model::{
    combine_checksums, crc_raw, crc_register, lemma_register_append, lemma_register_split,
    lemma_shift_linear, register_poly, shift_zeros, valid_width,
};

verus! {

/// The bytes of `chunks`, one chunk after the other.
pub open spec fn concat_chunks(chunks: Seq<Seq<u8>>) -> Seq<u8>
    decreases chunks.len(),
{
    if chunks.len() == 0 {
        Seq::empty()
    } else {
        concat_chunks(chunks.drop_last()) + chunks.last()
    }
}

/// The raw state after feeding `chunks` one by one, from the state `s`.
pub open spec fn stream_state(
    width: u8,
    poly: u64,
    reflected: bool,
    s: u64,
    chunks: Seq<Seq<u8>>,
) -> u64
    decreases chunks.len(),
{
    if chunks.len() == 0 {
        s
    } else {
        crc_raw(width, poly, reflected, stream_state(width, poly, reflected, s, chunks.drop_last()), chunks.last())
    }
}

/// Feeding a message in pieces gives the state of feeding it at once.
pub proof fn law_stream_equivalence(
    width: u8,
    poly: u64,
    reflected: bool,
    s: u64,
    chunks: Seq<Seq<u8>>,
)
    ensures
        stream_state(width, poly, reflected, s, chunks) == crc_raw(
            width,
            poly,
            reflected,
            s,
            concat_chunks(chunks),
        ),
    decreases chunks.len(),
{
    if chunks.len() > 0 {
        law_stream_equivalence(width, poly, reflected, s, chunks.drop_last());
        lemma_register_append(
            width,
            register_poly(width, poly, reflected),
            reflected,
            s,
            concat_chunks(chunks.drop_last()),
            chunks.last(),
        );
    }
}

/// Feeding `a` and then `b` gives the state of feeding `a ‖ b`.
pub proof fn law_update_append(width: u8, poly: u64, reflected: bool, s: u64, a: Seq<u8>, b: Seq<u8>)
    ensures
        crc_raw(width, poly, reflected, crc_raw(width, poly, reflected, s, a), b) == crc_raw(
            width,
            poly,
            reflected,
            s,
            a + b,
        ),
{
    lemma_register_append(width, register_poly(width, poly, reflected), reflected, s, a, b);
}

/// The checksum of the empty message is `init ^ xorout`.
pub proof fn law_empty_input(width: u8, poly: u64, reflected: bool, init: u64, xorout: u64)
    ensures
        checksum_spec(width, poly, reflected, init, xorout, Seq::empty()) == init ^ xorout,
{
}

/// Combining the checksums of `a` and `b` gives the checksum of `a ‖ b`.
pub proof fn law_combine(
    width: u8,
    poly: u64,
    reflected: bool,
    init: u64,
    xorout: u64,
    a: Seq<u8>,
    b: Seq<u8>,
)
    requires
        valid_width(width),
    ensures
        combine_checksums(
            width,
            poly,
            reflected,
            init,
            xorout,
            checksum_spec(width, poly, reflected, init, xorout, a),
            checksum_spec(width, poly, reflected, init, xorout, b),
            b.len(),
        ) == checksum_spec(width, poly, reflected, init, xorout, a + b),
{
    let rp = register_poly(width, poly, reflected);
    let z = crate::model::zeros(b.len());
    let x = crc_register(width, rp, reflected, init, a);
    let xz = crc_register(width, rp, reflected, x, z);
    let iz = crc_register(width, rp, reflected, init, z);
    let zb = crc_register(width, rp, reflected, 0, b);
    lemma_register_append(width, rp, reflected, init, a, b);
    lemma_register_split(width, rp, reflected, x, b);
    lemma_register_split(width, rp, reflected, init, b);
    assert((x ^ xorout) ^ xorout ^ init == x ^ init) by (bit_vector);
    lemma_shift_linear(width, rp, reflected, x, init, b.len());
    assert((xz ^ iz) ^ ((iz ^ zb) ^ xorout) == (xz ^ zb) ^ xorout) by (bit_vector);
}

/// For a catalogued algorithm, combining the checksums of `a` and `b`
/// gives the checksum of `a ‖ b`.
pub proof fn law_checksum_combine(algorithm: CrcAlgorithm, a: Seq<u8>, b: Seq<u8>)
    requires
        is_catalogued(algorithm),
    ensures
        ({
            let v = catalogue(algorithm);
            combine_checksums(
                v.width,
                v.poly,
                v.reflected,
                v.init,
                v.xorout,
                algorithm_checksum(algorithm, a),
                algorithm_checksum(algorithm, b),
                b.len(),
            ) == algorithm_checksum(algorithm, a + b)
        }),
{
    let v = catalogue(algorithm);
    law_combine(v.width, v.poly, v.reflected, v.init, v.xorout, a, b);
}

/// A digest that starts over and is then fed `y` finishes with the checksum
/// of `y`, whatever it held before.
pub proof fn law_reset_round_trip(d: Digest, y: Seq<u8>)
    requires
        d.state() == d.params().init,
    ensures
        d.state_after(y) ^ d.params().xorout == params_checksum(d.params(), y),
{
}

/// Two digests fed `a` and `b` from `init` combine into the raw state of
/// `a ‖ b`.
pub proof fn law_digest_combine(
    width: u8,
    poly: u64,
    reflected: bool,
    init: u64,
    xorout: u64,
    xorout_other: u64,
    a: Seq<u8>,
    b: Seq<u8>,
)
    requires
        valid_width(width),
    ensures
        combine_checksums(
            width,
            poly,
            reflected,
            init,
            xorout,
            crc_raw(width, poly, reflected, init, a) ^ xorout,
            crc_raw(width, poly, reflected, init, b) ^ xorout_other,
            b.len(),
        ) ^ xorout == crc_raw(width, poly, reflected, init, a + b) ^ (xorout ^ xorout_other),
{
    law_combine(width, poly, reflected, init, xorout, a, b);
    let c = combine_checksums(
        width,
        poly,
        reflected,
        init,
        xorout,
        crc_raw(width, poly, reflected, init, a) ^ xorout,
        crc_raw(width, poly, reflected, init, b) ^ xorout,
        b.len(),
    );
    let s = shift_zeros(
        width,
        poly,
        reflected,
        (crc_raw(width, poly, reflected, init, a) ^ xorout) ^ xorout ^ init,
        b.len(),
    );
    let rb = crc_raw(width, poly, reflected, init, b);
    let rab = crc_raw(width, poly, reflected, init, a + b);
    assert(c == s ^ (rb ^ xorout));
    assert(c == rab ^ xorout);
    assert((s ^ (rb ^ xorout_other)) ^ xorout == (rab ^ (xorout ^ xorout_other))) by {
        assert(s ^ (rb ^ xorout) == rab ^ xorout);
        assert(forall|s: u64, rb: u64, xo: u64, xp: u64, rab: u64|
            s ^ (rb ^ xo) == rab ^ xo ==> (s ^ (rb ^ xp)) ^ xo == rab ^ (xo ^ xp)) by (bit_vector);
    }
}

/// The folding keys depend only on the width, the polynomial and the
/// reflection: two parameter sets that agree on those have the same keys.
pub proof fn law_keys_independent(
    width: u8,
    poly: u64,
    reflected: bool,
    keys1: Seq<u64>,
    keys2: Seq<u64>,
)
    requires
        keys1 == generated_keys(width, poly, reflected),
        keys2 == generated_keys(width, poly, reflected),
    ensures
        keys1 == keys2,
{
}

} // verus!
