//! The executable CRC engine: the register update over a byte slice, and the
//! shift of a state past `n` zero bytes in `O(log n)` steps.
use vstd::prelude::*;

use crate::model::{
    bit_step, bit_steps, byte_step, crc_raw, crc_register, feed, lemma_bit_steps_linear, refl_bit,
    lemma_register_append,
    lemma_shift_linear, lemma_zero_state_zeros, lemma_zeros_add, register_poly, reverse_bits_acc,
    reverse_low_bits, valid_width, width_mask, zeros,
};

verus! {

/// From this input length on the table-driven update pays for its table.
pub const TABLE_THRESHOLD: usize = 256;

/// The lowest `n` bits of `x`, in reverse order.
pub fn reverse_bits(x: u64, n: u8) -> (r: u64)
    ensures
        r == reverse_low_bits(x, n as nat),
{
    let mut xs = x;
    let mut acc: u64 = 0;
    let mut i: u8 = 0;
    while i < n
        invariant
            i <= n,
            reverse_bits_acc(xs, (n - i) as nat, acc) == reverse_low_bits(x, n as nat),
        decreases n - i,
    {
        acc = (acc << 1) | (xs & 1);
        xs = xs >> 1;
        i = i + 1;
    }
    acc
}

/// The polynomial in the form the register uses.
pub fn make_register_poly(width: u8, poly: u64, reflected: bool) -> (r: u64)
    requires
        valid_width(width),
    ensures
        r == register_poly(width, poly, reflected),
{
    if reflected {
        reverse_bits(poly, width)
    } else if width == 32 {
        poly & 0xffff_ffffu64
    } else {
        poly & 0xffff_ffff_ffff_ffffu64
    }
}

pub(crate) fn step_bit(width: u8, rp: u64, reflected: bool, s: u64) -> (r: u64)
    requires
        valid_width(width),
    ensures
        r == bit_step(width, rp, reflected, s),
{
    if reflected {
        if s & 1 == 1 {
            (s >> 1) ^ rp
        } else {
            s >> 1
        }
    } else if width == 32 {
        if s & 0x8000_0000u64 != 0 {
            ((s << 1) ^ rp) & 0xffff_ffffu64
        } else {
            (s << 1) & 0xffff_ffffu64
        }
    } else {
        if s & 0x8000_0000_0000_0000u64 != 0 {
            ((s << 1) ^ rp) & 0xffff_ffff_ffff_ffffu64
        } else {
            (s << 1) & 0xffff_ffff_ffff_ffffu64
        }
    }
}

fn step_byte(width: u8, rp: u64, reflected: bool, s: u64, b: u8) -> (r: u64)
    requires
        valid_width(width),
    ensures
        r == byte_step(width, rp, reflected, s, b),
{
    let fed: u64 = if reflected {
        b as u64
    } else if width == 32 {
        (b as u64) << 24u64
    } else {
        (b as u64) << 56u64
    };
    let m: u64 = if width == 32 {
        0xffff_ffffu64
    } else {
        0xffff_ffff_ffff_ffffu64
    };
    let x0 = (s & m) ^ fed;
    let mut x = x0;
    let mut j: u8 = 0;
    while j < 8
        invariant
            valid_width(width),
            j <= 8,
            x == bit_steps(width, rp, reflected, x0, j as nat),
        decreases 8 - j,
    {
        x = step_bit(width, rp, reflected, x);
        j = j + 1;
    }
    x
}

/// The register after `data`, from the state `s`, with the register
/// polynomial `rp`.
pub fn update_register(width: u8, rp: u64, reflected: bool, s: u64, data: &[u8]) -> (r: u64)
    requires
        valid_width(width),
    ensures
        r == crc_register(width, rp, reflected, s, data@),
{
    let mut acc = s;
    let mut i: usize = 0;
    while i < data.len()
        invariant
            valid_width(width),
            i <= data@.len(),
            acc == crc_register(width, rp, reflected, s, data@.subrange(0, i as int)),
        decreases data.len() - i,
    {
        let ghost before = data@.subrange(0, i as int);
        acc = step_byte(width, rp, reflected, acc, data[i]);
        proof {
            let after = data@.subrange(0, i + 1);
            assert(after.drop_last() =~= before);
            assert(after.last() == data@[i as int]);
        }
        i = i + 1;
    }
    assert(data@.subrange(0, data@.len() as int) =~= data@);
    acc
}

/// Entry `i` of the byte table: the register contribution of the byte value
/// `i` after eight message bits.
pub open spec fn table_entry(width: u8, rp: u64, reflected: bool, i: u64) -> u64 {
    bit_steps(width, rp, reflected, feed(width, reflected, i as u8), 8)
}

/// `t` is the byte table of the register.
pub open spec fn is_byte_table(width: u8, rp: u64, reflected: bool, t: Seq<u64>) -> bool {
    &&& t.len() == 256
    &&& forall|i: int| 0 <= i < 256 ==> #[trigger] t[i] == table_entry(width, rp, reflected, i as u64)
}

/// The table-driven form of one byte step.
pub open spec fn table_step(width: u8, rp: u64, reflected: bool, t: Seq<u64>, s: u64, b: u8) -> u64 {
    let m = width_mask(width);
    if reflected {
        ((s & m) >> 8u64) ^ t[((s ^ (b as u64)) & 0xffu64) as int]
    } else if width == 32 {
        (((s & m) << 8u64) & m) ^ t[((((s & m) >> 24u64) ^ (b as u64)) & 0xffu64) as int]
    } else {
        (((s & m) << 8u64) & m) ^ t[((((s & m) >> 56u64) ^ (b as u64)) & 0xffu64) as int]
    }
}

/// Eight reflected steps of a value with a clear low byte only shift it.
proof fn lemma_refl_high_part(width: u8, rp: u64, hi: u64, k: nat)
    requires
        k <= 8,
        hi & 0xffu64 == 0,
    ensures
        bit_steps(width, rp, true, hi, k) == hi >> (k as u64),
    decreases k,
{
    if k == 0 {
        assert(hi >> 0u64 == hi) by (bit_vector);
    } else {
        lemma_refl_high_part(width, rp, hi, (k - 1) as nat);
        let j = (k - 1) as u64;
        let v = hi >> j;
        assert(bit_steps(width, rp, true, hi, k) == refl_bit(rp, v));
        assert(j < 8 && hi & 0xffu64 == 0 ==> ((hi >> j) & 1 == 0 && (hi >> j) >> 1u64 == hi >> (j
            + 1))) by (bit_vector);
        assert(j + 1 == k as u64);
        assert(refl_bit(rp, v) == v >> 1u64);
    }
}

/// Eight forward steps of a value with a clear top byte only shift it.
proof fn lemma_fwd_low_part(width: u8, rp: u64, lo: u64, k: nat)
    requires
        valid_width(width),
        k <= 8,
        width == 32 ==> lo < 0x100_0000u64,
        width == 64 ==> lo < 0x100_0000_0000_0000u64,
    ensures
        bit_steps(width, rp, false, lo, k) == (lo << (k as u64)) & width_mask(width),
    decreases k,
{
    if k == 0 {
        if width == 32 {
            assert(lo < 0x100_0000u64 ==> (lo << 0u64) & 0xffff_ffffu64 == lo) by (bit_vector);
        } else {
            assert((lo << 0u64) & 0xffff_ffff_ffff_ffffu64 == lo) by (bit_vector);
        }
    } else {
        lemma_fwd_low_part(width, rp, lo, (k - 1) as nat);
        let j = (k - 1) as u64;
        assert((k - 1) as u64 + 1 == k as u64);
        if width == 32 {
            assert(j < 8 && lo < 0x100_0000u64 ==> (((lo << j) & 0xffff_ffffu64) & 0x8000_0000u64
                == 0 && (((lo << j) & 0xffff_ffffu64) << 1u64) & 0xffff_ffffu64 == (lo << (j + 1))
                & 0xffff_ffffu64)) by (bit_vector);
        } else {
            assert(j < 8 && lo < 0x100_0000_0000_0000u64 ==> (((lo << j)
                & 0xffff_ffff_ffff_ffffu64) & 0x8000_0000_0000_0000u64 == 0 && (((lo << j)
                & 0xffff_ffff_ffff_ffffu64) << 1u64) & 0xffff_ffff_ffff_ffffu64 == (lo << (j + 1))
                & 0xffff_ffff_ffff_ffffu64)) by (bit_vector);
        }
    }
}

/// The table-driven step is the byte step.
proof fn lemma_table_step(width: u8, rp: u64, reflected: bool, t: Seq<u64>, s: u64, b: u8)
    requires
        valid_width(width),
        is_byte_table(width, rp, reflected, t),
    ensures
        table_step(width, rp, reflected, t, s, b) == byte_step(width, rp, reflected, s, b),
{
    let m = width_mask(width);
    let bb = b as u64;
    if reflected {
        let x = (s & m) ^ bb;
        let lo = x & 0xffu64;
        let hi = x & !0xffu64;
        assert(bb < 256 ==> x == hi ^ lo && hi & 0xffu64 == 0 && hi >> 8u64 == (s & m) >> 8u64)
            by (bit_vector)
            requires
                x == (s & m) ^ bb,
                lo == x & 0xffu64,
                hi == x & !0xffu64,
        ;
        if width == 32 {
            assert(0xffff_ffffu64 & 0xffu64 == 0xffu64) by (bit_vector);
        } else {
            assert(0xffff_ffff_ffff_ffffu64 & 0xffu64 == 0xffu64) by (bit_vector);
        }
        assert((m & 0xffu64) == 0xffu64 ==> lo == (s ^ bb) & 0xffu64) by (bit_vector)
            requires
                x == (s & m) ^ bb,
                lo == x & 0xffu64,
        ;
        assert(lo < 256) by (bit_vector)
            requires
                lo == x & 0xffu64,
        ;
        assert(feed(width, true, lo as u8) == lo) by {
            assert(lo < 256 ==> ((lo as u8) as u64) == lo) by (bit_vector);
        }
        lemma_bit_steps_linear(width, rp, true, hi, lo, 8);
        lemma_refl_high_part(width, rp, hi, 8);
        assert(byte_step(width, rp, true, s, b) == bit_steps(width, rp, true, x, 8));
        assert(t[lo as int] == table_entry(width, rp, true, lo));
        assert(table_entry(width, rp, true, lo) == bit_steps(width, rp, true, lo, 8));
        assert(bit_steps(width, rp, true, x, 8) == (hi >> 8u64) ^ bit_steps(width, rp, true, lo, 8));
        assert(table_step(width, rp, true, t, s, b) == ((s & m) >> 8u64) ^ t[lo as int]);
    } else if width == 32 {
        let x = (s & m) ^ (bb << 24u64);
        let top = x >> 24u64;
        let lo = x & 0xff_ffffu64;
        assert(bb < 256 ==> x == (top << 24u64) ^ lo && top < 256 && lo < 0x100_0000u64 && top == (
        ((s & 0xffff_ffffu64) >> 24u64) ^ bb) & 0xffu64 && (lo << 8u64) & 0xffff_ffffu64 == ((s
            & 0xffff_ffffu64) << 8u64) & 0xffff_ffffu64) by (bit_vector)
            requires
                x == (s & 0xffff_ffffu64) ^ (bb << 24u64),
                top == x >> 24u64,
                lo == x & 0xff_ffffu64,
        ;
        assert(feed(width, false, top as u8) == top << 24u64) by {
            assert(top < 256 ==> ((top as u8) as u64) == top) by (bit_vector);
        }
        lemma_bit_steps_linear(width, rp, false, top << 24u64, lo, 8);
        lemma_fwd_low_part(width, rp, lo, 8);
        assert(byte_step(width, rp, false, s, b) == bit_steps(width, rp, false, x, 8));
        assert(t[top as int] == table_entry(width, rp, false, top));
        assert(table_entry(width, rp, false, top) == bit_steps(width, rp, false, top << 24u64, 8));
        let e = t[top as int];
        let l = (lo << 8u64) & m;
        assert(table_step(width, rp, false, t, s, b) == l ^ e);
        assert(bit_steps(width, rp, false, x, 8) == e ^ l);
        assert(l ^ e == e ^ l) by (bit_vector);
    } else {
        let x = (s & m) ^ (bb << 56u64);
        let top = x >> 56u64;
        let lo = x & 0xff_ffff_ffff_ffffu64;
        assert(bb < 256 ==> x == (top << 56u64) ^ lo && top < 256 && lo < 0x100_0000_0000_0000u64
            && top == (((s & 0xffff_ffff_ffff_ffffu64) >> 56u64) ^ bb) & 0xffu64 && (lo << 8u64)
            & 0xffff_ffff_ffff_ffffu64 == ((s & 0xffff_ffff_ffff_ffffu64) << 8u64)
            & 0xffff_ffff_ffff_ffffu64) by (bit_vector)
            requires
                x == (s & 0xffff_ffff_ffff_ffffu64) ^ (bb << 56u64),
                top == x >> 56u64,
                lo == x & 0xff_ffff_ffff_ffffu64,
        ;
        assert(feed(width, false, top as u8) == top << 56u64) by {
            assert(top < 256 ==> ((top as u8) as u64) == top) by (bit_vector);
        }
        lemma_bit_steps_linear(width, rp, false, top << 56u64, lo, 8);
        lemma_fwd_low_part(width, rp, lo, 8);
        assert(byte_step(width, rp, false, s, b) == bit_steps(width, rp, false, x, 8));
        assert(t[top as int] == table_entry(width, rp, false, top));
        assert(table_entry(width, rp, false, top) == bit_steps(width, rp, false, top << 56u64, 8));
        let e = t[top as int];
        let l = (lo << 8u64) & m;
        assert(table_step(width, rp, false, t, s, b) == l ^ e);
        assert(bit_steps(width, rp, false, x, 8) == e ^ l);
        assert(l ^ e == e ^ l) by (bit_vector);
    }
}

/// Builds the byte table of the register.
pub fn make_byte_table(width: u8, rp: u64, reflected: bool) -> (t: Vec<u64>)
    requires
        valid_width(width),
    ensures
        is_byte_table(width, rp, reflected, t@),
{
    let mut t: Vec<u64> = Vec::new();
    let mut i: u64 = 0;
    while i < 256
        invariant
            valid_width(width),
            i <= 256,
            t@.len() == i,
            forall|j: int| 0 <= j < i ==> #[trigger] t@[j] == table_entry(width, rp, reflected, j as u64),
        decreases 256 - i,
    {
        let fed: u64 = if reflected {
            i
        } else if width == 32 {
            i << 24u64
        } else {
            i << 56u64
        };
        proof {
            assert(i < 256 ==> ((i as u8) as u64) == i) by (bit_vector);
        }
        let mut x = fed;
        let mut j: u8 = 0;
        while j < 8
            invariant
                valid_width(width),
                j <= 8,
                x == bit_steps(width, rp, reflected, fed, j as nat),
            decreases 8 - j,
        {
            x = step_bit(width, rp, reflected, x);
            j = j + 1;
        }
        t.push(x);
        i = i + 1;
    }
    t
}

/// The register after `data` by the byte table `t`.
pub fn update_register_table(
    width: u8,
    rp: u64,
    reflected: bool,
    t: &Vec<u64>,
    s: u64,
    data: &[u8],
) -> (r: u64)
    requires
        valid_width(width),
        is_byte_table(width, rp, reflected, t@),
    ensures
        r == crc_register(width, rp, reflected, s, data@),
{
    let m: u64 = if width == 32 {
        0xffff_ffffu64
    } else {
        0xffff_ffff_ffff_ffffu64
    };
    let mut acc = s;
    let mut i: usize = 0;
    while i < data.len()
        invariant
            valid_width(width),
            m == width_mask(width),
            is_byte_table(width, rp, reflected, t@),
            i <= data@.len(),
            acc == crc_register(width, rp, reflected, s, data@.subrange(0, i as int)),
        decreases data.len() - i,
    {
        let ghost before = data@.subrange(0, i as int);
        let b = data[i];
        proof {
            lemma_table_step(width, rp, reflected, t@, acc, b);
        }
        let bb = b as u64;
        let idx: u64 = if reflected {
            (acc ^ bb) & 0xffu64
        } else if width == 32 {
            (((acc & m) >> 24u64) ^ bb) & 0xffu64
        } else {
            (((acc & m) >> 56u64) ^ bb) & 0xffu64
        };
        proof {
            let a = acc;
            assert(((a ^ bb) & 0xffu64) < 256 && ((((a & m) >> 24u64) ^ bb) & 0xffu64) < 256 && ((((a
                & m) >> 56u64) ^ bb) & 0xffu64) < 256) by (bit_vector);
        }
        let entry = t[idx as usize];
        acc = if reflected {
            ((acc & m) >> 8u64) ^ entry
        } else {
            (((acc & m) << 8u64) & m) ^ entry
        };
        proof {
            let after = data@.subrange(0, i + 1);
            assert(after.drop_last() =~= before);
            assert(after.last() == data@[i as int]);
        }
        i = i + 1;
    }
    assert(data@.subrange(0, data@.len() as int) =~= data@);
    acc
}

/// The raw CRC state after `data`, from the state `state`.
pub fn update_raw(width: u8, poly: u64, reflected: bool, state: u64, data: &[u8]) -> (r: u64)
    requires
        valid_width(width),
    ensures
        r == crc_raw(width, poly, reflected, state, data@),
{
    let rp = make_register_poly(width, poly, reflected);
    if data.len() >= TABLE_THRESHOLD {
        let t = make_byte_table(width, rp, reflected);
        update_register_table(width, rp, reflected, &t, state, data)
    } else {
        update_register(width, rp, reflected, state, data)
    }
}

// ---------------------------------------------------------------------------
// Moving a state past zero bytes
// ---------------------------------------------------------------------------

/// The single bit `i`.
pub open spec fn unit(i: int) -> u64 {
    1u64 << (i as u64)
}

/// The bits of a word below position `j`.
pub open spec fn low_mask(j: int) -> u64 {
    if j >= 64 {
        0xffff_ffff_ffff_ffffu64
    } else {
        !(0xffff_ffff_ffff_ffffu64 << (j as u64))
    }
}

/// `op` holds, for each bit of the register, the image of that bit after
/// `k` zero bytes: the columns of a linear operator over GF(2).
pub open spec fn is_zero_op(width: u8, rp: u64, reflected: bool, op: Seq<u64>, k: nat) -> bool {
    &&& op.len() == width as nat
    &&& forall|i: int|
        0 <= i < width ==> #[trigger] op[i] == crc_register(width, rp, reflected, unit(i), zeros(k))
}

proof fn lemma_low_mask_step(v: u64, j: int)
    requires
        0 <= j < 64,
    ensures
        v & low_mask(j + 1) == (v & low_mask(j)) ^ (if (v >> (j as u64)) & 1 == 1 {
            unit(j)
        } else {
            0u64
        }),
{
    let ju = j as u64;
    if j < 63 {
        let ju1 = (j + 1) as u64;
        assert(ju1 == ju + 1);
        assert(ju < 63 ==> (v & !(0xffff_ffff_ffff_ffffu64 << (ju + 1))) == (v & !(
        0xffff_ffff_ffff_ffffu64 << ju)) ^ (if (v >> ju) & 1 == 1 {
            1u64 << ju
        } else {
            0u64
        })) by (bit_vector);
    } else {
        assert(ju == 63);
        assert((v & 0xffff_ffff_ffff_ffffu64) == (v & !(0xffff_ffff_ffff_ffffu64 << 63u64)) ^ (
        if (v >> 63u64) & 1 == 1 {
            1u64 << 63u64
        } else {
            0u64
        })) by (bit_vector);
    }
}

/// One zero byte is one byte step.
proof fn lemma_one_zero(width: u8, rp: u64, reflected: bool, x: u64)
    ensures
        crc_register(width, rp, reflected, x, zeros(1)) == byte_step(width, rp, reflected, x, 0u8),
{
    let z = zeros(1);
    assert(z.drop_last() =~= Seq::<u8>::empty());
    assert(crc_register(width, rp, reflected, x, z.drop_last()) == x);
    assert(z.last() == 0u8);
}

/// Over at least one zero byte only the bits of the width matter.
proof fn lemma_mask_zeros(width: u8, rp: u64, reflected: bool, s: u64, k: nat)
    requires
        valid_width(width),
        k > 0,
    ensures
        crc_register(width, rp, reflected, s & width_mask(width), zeros(k)) == crc_register(
            width,
            rp,
            reflected,
            s,
            zeros(k),
        ),
    decreases k,
{
    assert(zeros(k).drop_last() =~= zeros((k - 1) as nat));
    if k == 1 {
        let m = width_mask(width);
        assert((s & m) & m == s & m) by (bit_vector);
        lemma_one_zero(width, rp, reflected, s);
        lemma_one_zero(width, rp, reflected, s & m);
    } else {
        lemma_mask_zeros(width, rp, reflected, s, (k - 1) as nat);
    }
}

/// Applies the operator `op` (for `k` zero bytes) to the state `v`.
fn apply_op(width: u8, rp: u64, reflected: bool, op: &Vec<u64>, v: u64, Ghost(k): Ghost<nat>) -> (r:
    u64)
    requires
        valid_width(width),
        k > 0,
        is_zero_op(width, rp, reflected, op@, k),
    ensures
        r == crc_register(width, rp, reflected, v, zeros(k)),
{
    let mut acc: u64 = 0;
    let mut i: u8 = 0;
    proof {
        assert(v & !(0xffff_ffff_ffff_ffffu64 << 0u64) == 0) by (bit_vector);
        lemma_zero_state_zeros(width, rp, reflected, k);
    }
    while i < width
        invariant
            valid_width(width),
            k > 0,
            i <= width,
            is_zero_op(width, rp, reflected, op@, k),
            acc == crc_register(width, rp, reflected, v & low_mask(i as int), zeros(k)),
        decreases width - i,
    {
        proof {
            lemma_low_mask_step(v, i as int);
            lemma_shift_linear(
                width,
                rp,
                reflected,
                v & low_mask(i as int),
                if (v >> (i as u64)) & 1 == 1 {
                    unit(i as int)
                } else {
                    0u64
                },
                k,
            );
            lemma_zero_state_zeros(width, rp, reflected, k);
            assert(acc ^ 0u64 == acc) by (bit_vector);
        }
        if (v >> (i as u64)) & 1 == 1 {
            acc = acc ^ op[i as usize];
        }
        i = i + 1;
    }
    proof {
        if width == 32 {
            assert(low_mask(32) == 0xffff_ffffu64) by {
                assert(!(0xffff_ffff_ffff_ffffu64 << 32u64) == 0xffff_ffffu64) by (bit_vector);
            }
        }
        lemma_mask_zeros(width, rp, reflected, v, k);
    }
    acc
}

/// The operator for one zero byte.
fn zero_op_one(width: u8, rp: u64, reflected: bool) -> (op: Vec<u64>)
    requires
        valid_width(width),
    ensures
        is_zero_op(width, rp, reflected, op@, 1),
{
    let mut op: Vec<u64> = Vec::new();
    let mut i: u8 = 0;
    while i < width
        invariant
            valid_width(width),
            i <= width,
            op@.len() == i as nat,
            forall|j: int|
                0 <= j < i ==> #[trigger] op@[j] == crc_register(
                    width,
                    rp,
                    reflected,
                    unit(j),
                    zeros(1),
                ),
        decreases width - i,
    {
        let c = step_byte(width, rp, reflected, 1u64 << (i as u64), 0u8);
        proof {
            lemma_one_zero(width, rp, reflected, 1u64 << (i as u64));
            assert(unit(i as int) == 1u64 << (i as u64));
        }
        op.push(c);
        i = i + 1;
    }
    op
}

/// The operator for `2k` zero bytes, from the one for `k`.
fn square_op(width: u8, rp: u64, reflected: bool, op: &Vec<u64>, Ghost(k): Ghost<nat>) -> (r: Vec<
    u64>)
    requires
        valid_width(width),
        k > 0,
        is_zero_op(width, rp, reflected, op@, k),
    ensures
        is_zero_op(width, rp, reflected, r@, 2 * k),
{
    let mut r: Vec<u64> = Vec::new();
    let mut i: u8 = 0;
    while i < width
        invariant
            valid_width(width),
            k > 0,
            i <= width,
            is_zero_op(width, rp, reflected, op@, k),
            r@.len() == i as nat,
            forall|j: int|
                0 <= j < i ==> #[trigger] r@[j] == crc_register(
                    width,
                    rp,
                    reflected,
                    unit(j),
                    zeros(2 * k),
                ),
        decreases width - i,
    {
        let c = apply_op(width, rp, reflected, op, op[i as usize], Ghost(k));
        proof {
            lemma_register_append(width, rp, reflected, unit(i as int), zeros(k), zeros(k));
            lemma_zeros_add(k, k);
        }
        r.push(c);
        i = i + 1;
    }
    r
}

/// The state `s` moved past `n` zero bytes, in `O(log n)` operator steps.
pub fn shift_register(width: u8, rp: u64, reflected: bool, s: u64, n: u64) -> (r: u64)
    requires
        valid_width(width),
    ensures
        r == crc_register(width, rp, reflected, s, zeros(n as nat)),
{
    let mut acc = s;
    let mut rem = n;
    let ghost mut done: nat = 0;
    let ghost mut k: nat = 1;
    let mut op = zero_op_one(width, rp, reflected);
    assert(zeros(0) =~= Seq::<u8>::empty());
    while rem > 0
        invariant
            valid_width(width),
            k > 0,
            done + rem * k == n,
            rem > 0 ==> is_zero_op(width, rp, reflected, op@, k),
            acc == crc_register(width, rp, reflected, s, zeros(done)),
        decreases rem,
    {
        let ghost old_rem = rem;
        let ghost old_done = done;
        if rem & 1 == 1 {
            acc = apply_op(width, rp, reflected, &op, acc, Ghost(k));
            proof {
                lemma_register_append(width, rp, reflected, s, zeros(done), zeros(k));
                lemma_zeros_add(done, k);
                done = done + k;
            }
        }
        rem = rem >> 1;
        proof {
            assert(old_rem & 1 == 1 <==> old_rem % 2 == 1) by (bit_vector);
            assert(old_rem >> 1 == old_rem / 2) by (bit_vector);
            assert(old_rem == 2 * (old_rem / 2) + old_rem % 2);
            assert(done == old_done + (old_rem % 2) * k);
            assert(old_done + old_rem * k == n);
            assert(done + (old_rem / 2) * (2 * k) == n) by (nonlinear_arith)
                requires
                    done == old_done + (old_rem % 2) * k,
                    old_done + old_rem * k == n,
                    old_rem == 2 * (old_rem / 2) + old_rem % 2,
            ;
        }
        if rem > 0 {
            op = square_op(width, rp, reflected, &op, Ghost(k));
        }
        proof {
            k = 2 * k;
        }
    }
    assert(done == n);
    acc
}

} // verus!
