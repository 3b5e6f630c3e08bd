//! Bit-field helpers: extract and place closed bit ranges of a 64-bit word,
//! sign-extend from an arbitrary width, and repeat a bit across a width.

use vstd::prelude::*;

verus! {

/// Number of values representable in 64 bits.
pub open spec fn two64() -> int {
    0x1_0000_0000_0000_0000
}

/// All-ones mask of width `w`; width 64 and above is the whole word.
/// A `1 << 64` is never evaluated.
pub open spec fn mask_spec(w: u64) -> u64 {
    if w >= 64 {
        u64::MAX
    } else {
        ((1u64 << w) - 1) as u64
    }
}

/// `v[hi:lo]`, the closed bit range shifted down to bit 0.
pub open spec fn get_spec(v: u64, lo: u64, hi: u64) -> u64 {
    (v >> lo) & mask_spec(((hi - lo) + 1) as u64)
}

/// The low `hi - lo + 1` bits of `v` placed so that they occupy `[hi:lo]`.
pub open spec fn set_spec(v: u64, lo: u64, hi: u64) -> u64 {
    (v & mask_spec(((hi - lo) + 1) as u64)) << lo
}

/// Extract `[f_hi:f_lo]` and place it at `[t_hi:t_lo]`.
pub open spec fn map_spec(v: u64, f_lo: u64, f_hi: u64, t_lo: u64, t_hi: u64) -> u64 {
    set_spec(get_spec(v, f_lo, f_hi), t_lo, t_hi)
}

/// If bit `w - 1` of `v` is set, fill bits `[63:w]` with ones; else leave `v`.
pub open spec fn sign_ext_spec(w: u64, v: u64) -> u64 {
    if w == 0 || w >= 64 {
        v
    } else if v & (1u64 << ((w - 1) as u64)) != 0 {
        v | !mask_spec(w)
    } else {
        v
    }
}

/// Bit `b` repeated across the low `n` bits: zero if `b` is zero, else the mask.
pub open spec fn repeat_spec(b: u64, n: u64) -> u64 {
    if b == 0 {
        0u64
    } else {
        mask_spec(n)
    }
}

proof fn lemma_shl1_at_least_one(w: u64)
    by (bit_vector)
    requires
        w < 64,
    ensures
        1u64 << w >= 1,
{
}

/// A masked value never exceeds the mask.
pub broadcast proof fn lemma_and_mask_bound(x: u64, m: u64)
    by (bit_vector)
    ensures
        #[trigger] (x & m) <= m,
{
}

/// A closed inclusive range of bit positions, low then high, within a 64-bit word.
#[derive(Clone, Copy, Debug, PartialEq, Eq, Structural)]
pub struct BitRange(pub u64, pub u64);

impl BitRange {
    /// A well-formed range sits inside the word with its ends in order.
    pub open spec fn wf(self) -> bool {
        self.0 <= self.1 < 64
    }

    /// Number of bits in the closed range.
    pub open spec fn width(self) -> u64 {
        ((self.1 - self.0) + 1) as u64
    }

    /// The all-ones mask as wide as this range.
    pub fn mask(&self) -> (res: u64)
        requires
            self.wf(),
        ensures
            res == mask_spec(self.width()),
    {
        let w = self.1 - self.0 + 1;
        if w >= 64 {
            u64::MAX
        } else {
            proof {
                lemma_shl1_at_least_one(w);
            }
            (1u64 << w) - 1
        }
    }
}

/// The bits of `v` in the closed range `r`, shifted down to bit 0.
pub fn bit_range_get(v: u64, r: BitRange) -> (res: u64)
    requires
        r.wf(),
    ensures
        res == get_spec(v, r.0, r.1),
        res <= mask_spec(r.width()),
{
    proof {
        lemma_and_mask_bound(v >> r.0, mask_spec(r.width()));
    }
    (v >> r.0) & r.mask()
}

/// The low bits of `v` placed so that they occupy the closed range `r`.
pub fn bit_range_set(v: u64, r: BitRange) -> (res: u64)
    requires
        r.wf(),
    ensures
        res == set_spec(v, r.0, r.1),
{
    (v & r.mask()) << r.0
}

/// Extract range `from` of `v` and place it at range `to`.
pub fn bit_range_map(v: u64, from: BitRange, to: BitRange) -> (res: u64)
    requires
        from.wf(),
        to.wf(),
    ensures
        res == map_spec(v, from.0, from.1, to.0, to.1),
{
    bit_range_set(bit_range_get(v, from), to)
}

/// Sign-extend the low `width` bits of `v` to the full word: if bit
/// `width - 1` is set, bits `[63:width]` come out all ones.
pub fn sign_ext64(width: u64, v: u64) -> (res: u64)
    requires
        1 <= width <= 64,
    ensures
        res == sign_ext_spec(width, v),
{
    if width >= 64 {
        v
    } else if v & (1u64 << (width - 1)) != 0 {
        proof {
            lemma_shl1_at_least_one(width);
        }
        v | !((1u64 << width) - 1)
    } else {
        v
    }
}

/// Bit `b` repeated across the low `n` bits.
pub fn repeat_bit(b: u64, n: u64) -> (res: u64)
    requires
        n <= 64,
    ensures
        res == repeat_spec(b, n),
{
    if b == 0 {
        0
    } else if n >= 64 {
        u64::MAX
    } else {
        proof {
            lemma_shl1_at_least_one(n);
        }
        (1u64 << n) - 1
    }
}

} // verus!
