//! The folding constants ("keys") of a CRC variant.
//!
//! Slot `i` of the 23 keys holds, for the fold distances, the residue
//! `x^e mod P` for the exponent `e` of that slot (bit-reversed in reflected
//! mode), in slot 7 the Barrett reciprocal `floor(x^(2w) / P)` and in slot 8
//! the polynomial image. Slots 0, 21 and 22 are reserved and hold zero.
use vstd::prelude::*;

use crate::engine::{reverse_bits, step_bit};
use crate::model::{bit_steps, reverse_low_bits, top_bit, valid_width, width_mask};

verus! {

/// The number of keys in the current key format.
pub const KEY_COUNT: usize = 23;

/// The exponent of `x` whose residue slot `i` holds, as a multiple of the
/// width; zero for the slots that hold no residue.
pub open spec fn exponent_factor(width: u8, i: int) -> nat {
    if width == 32 {
        if i == 1 {
            3
        } else if i == 2 {
            5
        } else if i == 3 {
            31
        } else if i == 4 {
            33
        } else if i == 5 {
            3
        } else if i == 6 {
            2
        } else if i == 9 {
            27
        } else if i == 10 {
            29
        } else if i == 11 {
            23
        } else if i == 12 {
            25
        } else if i == 13 {
            19
        } else if i == 14 {
            21
        } else if i == 15 {
            15
        } else if i == 16 {
            17
        } else if i == 17 {
            11
        } else if i == 18 {
            13
        } else if i == 19 {
            7
        } else if i == 20 {
            9
        } else {
            0
        }
    } else {
        if i == 1 {
            2
        } else if i == 2 {
            3
        } else if i == 3 {
            16
        } else if i == 4 {
            17
        } else if i == 5 {
            2
        } else if i == 6 {
            1
        } else if i == 9 {
            14
        } else if i == 10 {
            15
        } else if i == 11 {
            12
        } else if i == 12 {
            13
        } else if i == 13 {
            10
        } else if i == 14 {
            11
        } else if i == 15 {
            8
        } else if i == 16 {
            9
        } else if i == 17 {
            6
        } else if i == 18 {
            7
        } else if i == 19 {
            4
        } else if i == 20 {
            5
        } else {
            0
        }
    }
}

/// `x^(width - 1 + k) mod P`: the top register bit multiplied `k` times by `x`.
pub open spec fn xpow_mod(width: u8, poly: u64, k: nat) -> u64 {
    bit_steps(width, poly & width_mask(width), false, top_bit(width), k)
}

/// The key for the fold distance `x^e` (`e` at least the width).
pub open spec fn fold_key(width: u8, poly: u64, reflected: bool, e: nat) -> u64 {
    if width == 32 {
        let r = xpow_mod(width, poly, (e - 31) as nat);
        if reflected {
            reverse_low_bits(r, 33)
        } else {
            r << 32u64
        }
    } else {
        if reflected {
            reverse_low_bits(xpow_mod(width, poly, (e - 64) as nat), 64)
        } else {
            xpow_mod(width, poly, (e - 63) as nat)
        }
    }
}

/// `steps` steps of the long division of the polynomial in `n` by the full
/// polynomial `pf` (of degree `width`); `q` collects the quotient bits.
pub open spec fn div_steps(width: u8, pf: u128, n: u128, q: u128, steps: nat) -> (u128, u128)
    decreases steps,
{
    if steps == 0 {
        (n, q)
    } else {
        let top: u128 = (n >> (width as u128)) & 1u128;
        let n2: u128 = if top == 1 {
            (n ^ pf) << 1u128
        } else {
            n << 1u128
        };
        div_steps(width, pf, n2, (q << 1u128) | top, (steps - 1) as nat)
    }
}

/// The polynomial with its leading term `x^width`.
pub open spec fn full_poly(width: u8, poly: u64) -> u128 {
    (1u128 << (width as u128)) | ((poly & width_mask(width)) as u128)
}

/// The quotient `floor(x^(2 width) / P)`, of `width + 1` bits.
pub open spec fn barrett_quotient(width: u8, poly: u64) -> u128 {
    div_steps(
        width,
        full_poly(width, poly),
        1u128 << (width as u128),
        0u128,
        (width + 1) as nat,
    ).1
}

/// The Barrett reciprocal key.
pub open spec fn mu_key(width: u8, poly: u64, reflected: bool) -> u64 {
    let q = barrett_quotient(width, poly);
    if width == 32 {
        if reflected {
            reverse_low_bits(q as u64, 33)
        } else {
            q as u64
        }
    } else {
        if reflected {
            reverse_low_bits((q >> 1u128) as u64, 64)
        } else {
            (q & 0xffff_ffff_ffff_ffffu128) as u64
        }
    }
}

/// The polynomial key: the full polynomial in forward mode, the reflected
/// polynomial shifted up with its low bit set in reflected mode.
pub open spec fn poly_key(width: u8, poly: u64, reflected: bool) -> u64 {
    if reflected {
        (reverse_low_bits(poly, width as nat) << 1u64) | 1u64
    } else if width == 32 {
        (poly & 0xffff_ffffu64) | 0x1_0000_0000u64
    } else {
        poly
    }
}

/// Key `i` of the variant.
pub open spec fn generated_key(width: u8, poly: u64, reflected: bool, i: int) -> u64 {
    if i == 7 {
        mu_key(width, poly, reflected)
    } else if i == 8 {
        poly_key(width, poly, reflected)
    } else if exponent_factor(width, i) == 0 {
        0
    } else {
        fold_key(width, poly, reflected, exponent_factor(width, i) * (width as nat))
    }
}

/// All keys of the variant.
pub open spec fn generated_keys(width: u8, poly: u64, reflected: bool) -> Seq<u64> {
    Seq::new(KEY_COUNT as nat, |i: int| generated_key(width, poly, reflected, i))
}

fn xpow_mod_exec(width: u8, poly: u64, k: u64) -> (r: u64)
    requires
        valid_width(width),
    ensures
        r == xpow_mod(width, poly, k as nat),
{
    let p: u64 = if width == 32 {
        poly & 0xffff_ffffu64
    } else {
        poly & 0xffff_ffff_ffff_ffffu64
    };
    let start: u64 = if width == 32 {
        0x8000_0000u64
    } else {
        0x8000_0000_0000_0000u64
    };
    let mut x = start;
    let mut j: u64 = 0;
    while j < k
        invariant
            valid_width(width),
            j <= k,
            p == poly & width_mask(width),
            start == top_bit(width),
            x == bit_steps(width, p, false, start, j as nat),
        decreases k - j,
    {
        x = step_bit(width, p, false, x);
        j = j + 1;
    }
    x
}

fn fold_key_exec(width: u8, poly: u64, reflected: bool, e: u64) -> (r: u64)
    requires
        valid_width(width),
        width <= e <= 0x1_0000,
    ensures
        r == fold_key(width, poly, reflected, e as nat),
{
    if width == 32 {
        let r = xpow_mod_exec(width, poly, e - 31);
        if reflected {
            reverse_bits(r, 33)
        } else {
            r << 32u64
        }
    } else {
        if reflected {
            let r = xpow_mod_exec(width, poly, e - 64);
            reverse_bits(r, 64)
        } else {
            xpow_mod_exec(width, poly, e - 63)
        }
    }
}

fn mu_key_exec(width: u8, poly: u64, reflected: bool) -> (r: u64)
    requires
        valid_width(width),
    ensures
        r == mu_key(width, poly, reflected),
{
    let p: u64 = if width == 32 {
        poly & 0xffff_ffffu64
    } else {
        poly & 0xffff_ffff_ffff_ffffu64
    };
    let pf: u128 = (1u128 << (width as u128)) | (p as u128);
    let steps: u8 = width + 1;
    let mut n: u128 = 1u128 << (width as u128);
    let mut q: u128 = 0;
    let mut j: u8 = 0;
    while j < steps
        invariant
            valid_width(width),
            steps == width + 1,
            j <= steps,
            pf == full_poly(width, poly),
            div_steps(width, pf, n, q, (steps - j) as nat) == div_steps(
                width,
                full_poly(width, poly),
                1u128 << (width as u128),
                0u128,
                (width + 1) as nat,
            ),
        decreases steps - j,
    {
        let top: u128 = (n >> (width as u128)) & 1u128;
        if top == 1 {
            n = (n ^ pf) << 1u128;
        } else {
            n = n << 1u128;
        }
        q = (q << 1u128) | top;
        j = j + 1;
    }
    if width == 32 {
        if reflected {
            reverse_bits(q as u64, 33)
        } else {
            q as u64
        }
    } else {
        if reflected {
            reverse_bits((q >> 1u128) as u64, 64)
        } else {
            (q & 0xffff_ffff_ffff_ffffu128) as u64
        }
    }
}

fn poly_key_exec(width: u8, poly: u64, reflected: bool) -> (r: u64)
    requires
        valid_width(width),
    ensures
        r == poly_key(width, poly, reflected),
{
    if reflected {
        (reverse_bits(poly, width) << 1u64) | 1u64
    } else if width == 32 {
        (poly & 0xffff_ffffu64) | 0x1_0000_0000u64
    } else {
        poly
    }
}

fn key_at(width: u8, poly: u64, reflected: bool, i: usize, factor: u64) -> (r: u64)
    requires
        valid_width(width),
        i < KEY_COUNT,
        factor == exponent_factor(width, i as int),
    ensures
        r == generated_key(width, poly, reflected, i as int),
{
    if i == 7 {
        mu_key_exec(width, poly, reflected)
    } else if i == 8 {
        poly_key_exec(width, poly, reflected)
    } else if factor == 0 {
        0
    } else {
        assert(factor <= 33);
        fold_key_exec(width, poly, reflected, factor * (width as u64))
    }
}

/// The exponent factor of slot `i`, as an executable value.
fn exponent_factor_exec(width: u8, i: usize) -> (r: u64)
    requires
        valid_width(width),
    ensures
        r == exponent_factor(width, i as int),
{
    let factors32: [u64; 23] = [0, 3, 5, 31, 33, 3, 2, 0, 0, 27, 29, 23, 25, 19, 21, 15, 17, 11, 13, 7, 9, 0, 0];
    let factors64: [u64; 23] = [0, 2, 3, 16, 17, 2, 1, 0, 0, 14, 15, 12, 13, 10, 11, 8, 9, 6, 7, 4, 5, 0, 0];
    if i >= 23 {
        0
    } else if width == 32 {
        factors32[i]
    } else {
        factors64[i]
    }
}

/// Computes the 23 folding keys of the variant `(width, poly, reflected)`.
pub fn keys(width: u8, poly: u64, reflected: bool) -> (r: [u64; 23])
    requires
        valid_width(width),
    ensures
        r@ =~= generated_keys(width, poly, reflected),
{
    let mut v: Vec<u64> = Vec::new();
    let mut i: usize = 0;
    while i < KEY_COUNT
        invariant
            valid_width(width),
            i <= KEY_COUNT,
            v@.len() == i,
            forall|j: int| 0 <= j < i ==> #[trigger] v@[j] == generated_key(width, poly, reflected, j),
        decreases KEY_COUNT - i,
    {
        let f = exponent_factor_exec(width, i);
        let k = key_at(width, poly, reflected, i, f);
        v.push(k);
        i = i + 1;
    }
    [
        v[0],
        v[1],
        v[2],
        v[3],
        v[4],
        v[5],
        v[6],
        v[7],
        v[8],
        v[9],
        v[10],
        v[11],
        v[12],
        v[13],
        v[14],
        v[15],
        v[16],
        v[17],
        v[18],
        v[19],
        v[20],
        v[21],
        v[22],
    ]
}

} // verus!
