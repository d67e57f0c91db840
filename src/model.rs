//! The mathematical model of a CRC register.
//!
//! A CRC of `width` bits with generator polynomial `poly` is the remainder of
//! the message polynomial modulo `poly`. The register model below processes
//! one message bit at a time: in forward mode the register is multiplied by
//! `x` modulo `poly` (shift left, reduce on the top bit); in reflected mode
//! the bit order of the register is mirrored, so the same operation is a
//! shift right reduced by the bit-reversed polynomial.
use vstd::prelude::*;

verus! {

/// The CRC widths this library computes.
pub open spec fn valid_width(width: u8) -> bool {
    width == 32 || width == 64
}

/// All bits of a register of `width` bits.
pub open spec fn width_mask(width: u8) -> u64 {
    if width == 32 {
        0xffff_ffffu64
    } else {
        0xffff_ffff_ffff_ffffu64
    }
}

/// The highest bit of a register of `width` bits.
pub open spec fn top_bit(width: u8) -> u64 {
    if width == 32 {
        0x8000_0000u64
    } else {
        0x8000_0000_0000_0000u64
    }
}

/// The lowest `n` bits of `x` in reverse order, appended below the bits of `acc`.
pub open spec fn reverse_bits_acc(x: u64, n: nat, acc: u64) -> u64
    decreases n,
{
    if n == 0 {
        acc
    } else {
        reverse_bits_acc(x >> 1, (n - 1) as nat, (acc << 1) | (x & 1))
    }
}

/// The lowest `n` bits of `x` in reverse order.
pub open spec fn reverse_low_bits(x: u64, n: nat) -> u64 {
    reverse_bits_acc(x, n, 0)
}

/// The polynomial as the register uses it: masked to the width, and
/// bit-reversed in reflected mode.
pub open spec fn register_poly(width: u8, poly: u64, reflected: bool) -> u64 {
    if reflected {
        reverse_low_bits(poly, width as nat)
    } else {
        poly & width_mask(width)
    }
}

/// One message bit in reflected mode: divide by `x`, reducing by the
/// reflected polynomial `rp`.
pub open spec fn refl_bit(rp: u64, s: u64) -> u64 {
    if s & 1 == 1 {
        (s >> 1) ^ rp
    } else {
        s >> 1
    }
}

/// One message bit in forward mode: multiply by `x` modulo the polynomial
/// `p`, keeping `width` bits.
pub open spec fn fwd_bit(width: u8, p: u64, s: u64) -> u64 {
    if s & top_bit(width) != 0 {
        ((s << 1) ^ p) & width_mask(width)
    } else {
        (s << 1) & width_mask(width)
    }
}

/// One message bit, given the register polynomial `rp`.
pub open spec fn bit_step(width: u8, rp: u64, reflected: bool, s: u64) -> u64 {
    if reflected {
        refl_bit(rp, s)
    } else {
        fwd_bit(width, rp, s)
    }
}

/// `n` message bits applied to the register.
pub open spec fn bit_steps(width: u8, rp: u64, reflected: bool, s: u64, n: nat) -> u64
    decreases n,
{
    if n == 0 {
        s
    } else {
        bit_step(width, rp, reflected, bit_steps(width, rp, reflected, s, (n - 1) as nat))
    }
}

/// Where a message byte enters the register: the low byte in reflected
/// mode, the top byte in forward mode.
pub open spec fn feed(width: u8, reflected: bool, b: u8) -> u64 {
    if reflected {
        b as u64
    } else if width == 32 {
        (b as u64) << 24u64
    } else {
        (b as u64) << 56u64
    }
}

/// The register after one message byte.
pub open spec fn byte_step(width: u8, rp: u64, reflected: bool, s: u64, b: u8) -> u64 {
    bit_steps(width, rp, reflected, (s & width_mask(width)) ^ feed(width, reflected, b), 8)
}

/// The register after the bytes of `data`, starting from `s`, with the
/// register polynomial `rp`.
pub open spec fn crc_register(width: u8, rp: u64, reflected: bool, s: u64, data: Seq<u8>) -> u64
    decreases data.len(),
{
    if data.len() == 0 {
        s
    } else {
        byte_step(
            width,
            rp,
            reflected,
            crc_register(width, rp, reflected, s, data.drop_last()),
            data.last(),
        )
    }
}

/// The raw (not yet xored-out) CRC state after `data`, starting from the
/// state `s`, for the variant given by `width`, `poly` and `reflected`.
pub open spec fn crc_raw(width: u8, poly: u64, reflected: bool, s: u64, data: Seq<u8>) -> u64 {
    crc_register(width, register_poly(width, poly, reflected), reflected, s, data)
}

/// `n` zero bytes.
pub open spec fn zeros(n: nat) -> Seq<u8> {
    Seq::new(n, |i: int| 0u8)
}

/// Bytewise exclusive or of two byte strings of equal length.
pub open spec fn xor_bytes(a: Seq<u8>, b: Seq<u8>) -> Seq<u8> {
    Seq::new(a.len(), |i: int| a[i] ^ b[i])
}

/// The state `s` moved past `n` zero bytes: multiplication by `x^(8n)`
/// modulo the polynomial.
pub open spec fn shift_zeros(width: u8, poly: u64, reflected: bool, s: u64, n: nat) -> u64 {
    crc_raw(width, poly, reflected, s, zeros(n))
}

/// The checksum of the concatenation of two messages, from the finished
/// checksums `c1` and `c2` of its parts, the second of `n` bytes.
pub open spec fn combine_checksums(
    width: u8,
    poly: u64,
    reflected: bool,
    init: u64,
    xorout: u64,
    c1: u64,
    c2: u64,
    n: nat,
) -> u64 {
    shift_zeros(width, poly, reflected, c1 ^ xorout ^ init, n) ^ c2
}

// ---------------------------------------------------------------------------
// Lemmas
// ---------------------------------------------------------------------------

/// Processing a concatenation is processing its parts in turn.
pub proof fn lemma_register_append(
    width: u8,
    rp: u64,
    reflected: bool,
    s: u64,
    a: Seq<u8>,
    b: Seq<u8>,
)
    ensures
        crc_register(width, rp, reflected, s, a + b) == crc_register(
            width,
            rp,
            reflected,
            crc_register(width, rp, reflected, s, a),
            b,
        ),
    decreases b.len(),
{
    if b.len() == 0 {
        assert(a + b =~= a);
    } else {
        assert((a + b).drop_last() =~= a + b.drop_last());
        assert((a + b).last() == b.last());
        lemma_register_append(width, rp, reflected, s, a, b.drop_last());
    }
}

proof fn lemma_bit_step_linear(width: u8, rp: u64, reflected: bool, a: u64, b: u64)
    requires
        valid_width(width),
    ensures
        bit_step(width, rp, reflected, a ^ b) == bit_step(width, rp, reflected, a) ^ bit_step(
            width,
            rp,
            reflected,
            b,
        ),
{
    if reflected {
        assert((if (a ^ b) & 1 == 1 {
            ((a ^ b) >> 1) ^ rp
        } else {
            (a ^ b) >> 1
        }) == (if a & 1 == 1 {
            (a >> 1) ^ rp
        } else {
            a >> 1
        }) ^ (if b & 1 == 1 {
            (b >> 1) ^ rp
        } else {
            b >> 1
        })) by (bit_vector);
    } else if width == 32 {
        assert((if (a ^ b) & 0x8000_0000u64 != 0 {
            (((a ^ b) << 1) ^ rp) & 0xffff_ffffu64
        } else {
            ((a ^ b) << 1) & 0xffff_ffffu64
        }) == (if a & 0x8000_0000u64 != 0 {
            ((a << 1) ^ rp) & 0xffff_ffffu64
        } else {
            (a << 1) & 0xffff_ffffu64
        }) ^ (if b & 0x8000_0000u64 != 0 {
            ((b << 1) ^ rp) & 0xffff_ffffu64
        } else {
            (b << 1) & 0xffff_ffffu64
        })) by (bit_vector);
    } else {
        assert((if (a ^ b) & 0x8000_0000_0000_0000u64 != 0 {
            (((a ^ b) << 1) ^ rp) & 0xffff_ffff_ffff_ffffu64
        } else {
            ((a ^ b) << 1) & 0xffff_ffff_ffff_ffffu64
        }) == (if a & 0x8000_0000_0000_0000u64 != 0 {
            ((a << 1) ^ rp) & 0xffff_ffff_ffff_ffffu64
        } else {
            (a << 1) & 0xffff_ffff_ffff_ffffu64
        }) ^ (if b & 0x8000_0000_0000_0000u64 != 0 {
            ((b << 1) ^ rp) & 0xffff_ffff_ffff_ffffu64
        } else {
            (b << 1) & 0xffff_ffff_ffff_ffffu64
        })) by (bit_vector);
    }
}

pub proof fn lemma_bit_steps_linear(width: u8, rp: u64, reflected: bool, a: u64, b: u64, n: nat)
    requires
        valid_width(width),
    ensures
        bit_steps(width, rp, reflected, a ^ b, n) == bit_steps(width, rp, reflected, a, n)
            ^ bit_steps(width, rp, reflected, b, n),
    decreases n,
{
    if n > 0 {
        lemma_bit_steps_linear(width, rp, reflected, a, b, (n - 1) as nat);
        lemma_bit_step_linear(
            width,
            rp,
            reflected,
            bit_steps(width, rp, reflected, a, (n - 1) as nat),
            bit_steps(width, rp, reflected, b, (n - 1) as nat),
        );
    }
}

proof fn lemma_byte_step_linear(
    width: u8,
    rp: u64,
    reflected: bool,
    s1: u64,
    s2: u64,
    b1: u8,
    b2: u8,
)
    requires
        valid_width(width),
    ensures
        byte_step(width, rp, reflected, s1 ^ s2, b1 ^ b2) == byte_step(width, rp, reflected, s1, b1)
            ^ byte_step(width, rp, reflected, s2, b2),
{
    let m = width_mask(width);
    let x1 = (s1 & m) ^ feed(width, reflected, b1);
    let x2 = (s2 & m) ^ feed(width, reflected, b2);
    assert(((s1 ^ s2) & m) ^ ((s1 & m) ^ (s2 & m)) == 0) by (bit_vector);
    assert(((b1 ^ b2) as u64) == (b1 as u64) ^ (b2 as u64)) by (bit_vector);
    assert((((b1 ^ b2) as u64) << 24u64) == ((b1 as u64) << 24u64) ^ ((b2 as u64) << 24u64))
        by (bit_vector);
    assert((((b1 ^ b2) as u64) << 56u64) == ((b1 as u64) << 56u64) ^ ((b2 as u64) << 56u64))
        by (bit_vector);
    let f1 = feed(width, reflected, b1);
    let f2 = feed(width, reflected, b2);
    let t1 = s1 & m;
    let t2 = s2 & m;
    assert(feed(width, reflected, b1 ^ b2) == f1 ^ f2);
    assert(((s1 ^ s2) & m) == t1 ^ t2) by {
        assert(((s1 ^ s2) & m) ^ ((s1 & m) ^ (s2 & m)) == 0);
        assert(forall|u: u64, v: u64| u ^ v == 0 ==> u == v) by (bit_vector);
    }
    assert((t1 ^ t2) ^ (f1 ^ f2) == (t1 ^ f1) ^ (t2 ^ f2)) by (bit_vector);
    lemma_bit_steps_linear(width, rp, reflected, x1, x2, 8);
}

/// The register is linear over GF(2) in the start state and the message
/// together.
pub proof fn lemma_register_linear(
    width: u8,
    rp: u64,
    reflected: bool,
    s1: u64,
    s2: u64,
    a: Seq<u8>,
    b: Seq<u8>,
)
    requires
        valid_width(width),
        a.len() == b.len(),
    ensures
        crc_register(width, rp, reflected, s1 ^ s2, xor_bytes(a, b)) == crc_register(
            width,
            rp,
            reflected,
            s1,
            a,
        ) ^ crc_register(width, rp, reflected, s2, b),
    decreases a.len(),
{
    let x = xor_bytes(a, b);
    if a.len() > 0 {
        assert(x.drop_last() =~= xor_bytes(a.drop_last(), b.drop_last()));
        lemma_register_linear(width, rp, reflected, s1, s2, a.drop_last(), b.drop_last());
        lemma_byte_step_linear(
            width,
            rp,
            reflected,
            crc_register(width, rp, reflected, s1, a.drop_last()),
            crc_register(width, rp, reflected, s2, b.drop_last()),
            a.last(),
            b.last(),
        );
    }
}

/// Zero bytes xored onto a message leave it as it is.
pub proof fn lemma_xor_zeros(b: Seq<u8>)
    ensures
        xor_bytes(zeros(b.len()), b) =~= b,
        xor_bytes(zeros(b.len()), zeros(b.len())) =~= zeros(b.len()),
{
    assert forall|i: int| 0 <= i < b.len() implies #[trigger] xor_bytes(zeros(b.len()), b)[i]
        == b[i] by {
        let c = b[i];
        assert(0u8 ^ c == c) by (bit_vector);
    }
    assert(0u8 ^ 0u8 == 0u8) by (bit_vector);
}

/// A register of zero stays zero over zero bytes.
pub proof fn lemma_zero_state_zeros(width: u8, rp: u64, reflected: bool, n: nat)
    requires
        valid_width(width),
    ensures
        crc_register(width, rp, reflected, 0, zeros(n)) == 0,
{
    lemma_xor_zeros(zeros(n));
    lemma_register_linear(width, rp, reflected, 0, 0, zeros(n), zeros(n));
    let r = crc_register(width, rp, reflected, 0, zeros(n));
    assert(0u64 ^ 0u64 == 0u64) by (bit_vector);
    assert(r ^ r == 0) by (bit_vector);
}

/// Moving a state past zero bytes is linear in the state.
pub proof fn lemma_shift_linear(width: u8, rp: u64, reflected: bool, s1: u64, s2: u64, n: nat)
    requires
        valid_width(width),
    ensures
        crc_register(width, rp, reflected, s1 ^ s2, zeros(n)) == crc_register(
            width,
            rp,
            reflected,
            s1,
            zeros(n),
        ) ^ crc_register(width, rp, reflected, s2, zeros(n)),
{
    lemma_xor_zeros(zeros(n));
    lemma_register_linear(width, rp, reflected, s1, s2, zeros(n), zeros(n));
}

/// A message splits into the shifted start state and the message read from
/// a zero state.
pub proof fn lemma_register_split(width: u8, rp: u64, reflected: bool, s: u64, b: Seq<u8>)
    requires
        valid_width(width),
    ensures
        crc_register(width, rp, reflected, s, b) == crc_register(
            width,
            rp,
            reflected,
            s,
            zeros(b.len()),
        ) ^ crc_register(width, rp, reflected, 0, b),
{
    lemma_xor_zeros(b);
    assert(s ^ 0u64 == s) by (bit_vector);
    lemma_register_linear(width, rp, reflected, s, 0, zeros(b.len()), b);
}

/// Two concatenated runs of zero bytes.
pub proof fn lemma_zeros_add(a: nat, b: nat)
    ensures
        zeros(a) + zeros(b) =~= zeros(a + b),
{
}

} // verus!
