//! Exact 64-bit integer primitives of the machine: wrapping add/sub, bitwise
//! logic, shifts, signed and unsigned compares, division and remainder, and
//! the 32-bit word-width variants that sign-extend their result to 64 bits.

use vstd::prelude::*;
use vstd::arithmetic::div_mod::{
    lemma_small_mod, lemma_mod_sub_multiples_vanish, lemma_mod_add_multiples_vanish,
    lemma_div_is_ordered_by_denominator,
};
use crate::bitops::{two64, sign_ext_spec, sign_ext64, lemma_and_mask_bound};

verus! {

/// Number of values representable in 32 bits.
pub open spec fn two32() -> int {
    0x1_0000_0000
}

/// The 64-bit word whose bit pattern is `x` taken modulo 2^64.
pub open spec fn wrap64(x: int) -> u64 {
    (x % two64()) as u64
}

/// The 32-bit value of `x` taken modulo 2^32, held in the low half of a word.
pub open spec fn wrap32(x: int) -> u64 {
    (x % two32()) as u64
}

/// The word `v` read as a two's-complement signed integer.
pub open spec fn s64(v: u64) -> int {
    if v >= 0x8000_0000_0000_0000 {
        v - two64()
    } else {
        v as int
    }
}

/// The low 32 bits of `v` read as a two's-complement signed integer.
pub open spec fn s32(v: u64) -> int {
    if (v & 0xFFFF_FFFF) >= 0x8000_0000 {
        (v & 0xFFFF_FFFF) - two32()
    } else {
        (v & 0xFFFF_FFFF) as int
    }
}

/// Truncated (round-toward-zero) integer division, the machine's signed rule.
pub open spec fn trunc_div(a: int, b: int) -> int {
    if a == 0 {
        0int
    } else if a > 0 && b > 0 {
        a / b
    } else if a < 0 && b < 0 {
        (a * -1) / (b * -1)
    } else if a < 0 {
        ((a * -1) / b) * -1
    } else {
        (a / (b * -1)) * -1
    }
}

/// Remainder matching truncated division: same sign as the dividend.
pub open spec fn trunc_rem(a: int, b: int) -> int {
    if a == 0 {
        0int
    } else if a > 0 && b > 0 {
        a % b
    } else if a < 0 && b < 0 {
        ((a * -1) % (b * -1)) * -1
    } else if a < 0 {
        ((a * -1) % b) * -1
    } else {
        a % (b * -1)
    }
}

proof fn lemma_wrap64_small(x: int)
    requires
        0 <= x < two64(),
    ensures
        wrap64(x) == x,
{
    lemma_small_mod(x as nat, two64() as nat);
}

proof fn lemma_wrap64_high(x: int)
    requires
        two64() <= x < 2 * two64(),
    ensures
        wrap64(x) == x - two64(),
{
    lemma_mod_sub_multiples_vanish(x, two64());
    lemma_small_mod((x - two64()) as nat, two64() as nat);
}

proof fn lemma_wrap64_neg(x: int)
    requires
        -two64() <= x < 0,
    ensures
        wrap64(x) == x + two64(),
{
    lemma_mod_add_multiples_vanish(x, two64());
    lemma_small_mod((x + two64()) as nat, two64() as nat);
}

/// How a `u64` bit pattern reads as an `i64`, and back.
pub proof fn lemma_u64_as_i64(v: u64)
    by (bit_vector)
    ensures
        v < 0x8000_0000_0000_0000 ==> (v as i64) as int == v as int,
        v >= 0x8000_0000_0000_0000 ==> (v as i64) as int == v as int
            - 0x1_0000_0000_0000_0000,
        (v as i64) as u64 == v,
{
}

/// How an `i64` value reads back as a `u64` bit pattern.
proof fn lemma_i64_as_u64(x: i64)
    by (bit_vector)
    ensures
        x >= 0 ==> (x as u64) as int == x as int,
        x < 0 ==> (x as u64) as int == x as int + 0x1_0000_0000_0000_0000,
{
}

/// Masking with the low-32 mask is reduction modulo 2^32.
proof fn lemma_mask32_is_mod(x: u64)
    by (bit_vector)
    ensures
        x & 0xFFFF_FFFF == x % 0x1_0000_0000u64,
        x & 0xFFFF_FFFF < 0x1_0000_0000u64,
{
}

/// Reducing modulo 2^64 and then modulo 2^32 is reducing modulo 2^32.
proof fn lemma_wrap64_then_32(x: int)
    ensures
        wrap64(x) as int % two32() == x % two32(),
{
    vstd::arithmetic::div_mod::lemma_mod_mod(x, two32(), two32());
    assert(two32() * two32() == two64()) by (nonlinear_arith);
}

/// Wrapping 64-bit addition.
pub fn add(op1: u64, op2: u64) -> (r: u64)
    ensures
        r == wrap64(op1 + op2),
{
    proof {
        if op1 + op2 < two64() {
            lemma_wrap64_small(op1 + op2);
        } else {
            lemma_wrap64_high(op1 + op2);
        }
    }
    op1.wrapping_add(op2)
}

/// Wrapping 64-bit subtraction.
pub fn sub(op1: u64, op2: u64) -> (r: u64)
    ensures
        r == wrap64(op1 - op2),
{
    proof {
        if op1 >= op2 {
            lemma_wrap64_small(op1 - op2);
        } else {
            lemma_wrap64_neg(op1 - op2);
        }
    }
    op1.wrapping_sub(op2)
}

/// Bitwise AND.
pub fn and(op1: u64, op2: u64) -> (r: u64)
    ensures
        r == (op1 & op2),
{
    op1 & op2
}

/// Bitwise OR.
pub fn or(op1: u64, op2: u64) -> (r: u64)
    ensures
        r == (op1 | op2),
{
    op1 | op2
}

/// Bitwise XOR.
pub fn xor(op1: u64, op2: u64) -> (r: u64)
    ensures
        r == (op1 ^ op2),
{
    op1 ^ op2
}

/// Bitwise NOT.
pub fn not(op1: u64) -> (r: u64)
    ensures
        r == !op1,
{
    !op1
}

/// One if `op1 < op2` as unsigned words, else zero.
pub fn sltu(op1: u64, op2: u64) -> (r: u64)
    ensures
        r == if op1 < op2 { 1u64 } else { 0u64 },
{
    if op1 < op2 {
        1
    } else {
        0
    }
}

/// One if `op1 < op2` as signed words, else zero.
pub fn slt(op1: u64, op2: u64) -> (r: u64)
    ensures
        r == if s64(op1) < s64(op2) { 1u64 } else { 0u64 },
{
    proof {
        lemma_u64_as_i64(op1);
        lemma_u64_as_i64(op2);
    }
    if (op1 as i64) < (op2 as i64) {
        1
    } else {
        0
    }
}

/// Logical left shift by the low six bits of the shift amount.
pub fn sll(v: u64, shamt: u64) -> (r: u64)
    ensures
        r == (v << (shamt & 0x3F)),
{
    proof {
        lemma_and_mask_bound(shamt, 0x3F);
    }
    v << (shamt & 0x3F)
}

/// Logical right shift by the low six bits of the shift amount.
pub fn srl(v: u64, shamt: u64) -> (r: u64)
    ensures
        r == (v >> (shamt & 0x3F)),
{
    proof {
        lemma_and_mask_bound(shamt, 0x3F);
    }
    v >> (shamt & 0x3F)
}

/// Arithmetic right shift: the sign bit is replicated into the vacated bits.
pub open spec fn sra_spec(v: u64, shamt: u64) -> u64 {
    if (shamt & 0x3F) == 0 {
        v
    } else {
        sign_ext_spec((64 - (shamt & 0x3F)) as u64, v >> (shamt & 0x3F))
    }
}

/// Arithmetic right shift by the low six bits of the shift amount.
pub fn sra(v: u64, shamt: u64) -> (r: u64)
    ensures
        r == sra_spec(v, shamt),
{
    proof {
        lemma_and_mask_bound(shamt, 0x3F);
    }
    let sh = shamt & 0x3F;
    if sh == 0 {
        v
    } else {
        sign_ext64(64 - sh, v >> sh)
    }
}

/// Word add: wrap in 32 bits, then sign-extend the result to 64.
pub fn addw(op1: u64, op2: u64) -> (r: u64)
    ensures
        r == sign_ext_spec(32, wrap32(op1 + op2)),
{
    let s = crate::rv64alu::add(op1, op2);
    proof {
        lemma_mask32_is_mod(s);
        lemma_wrap64_then_32(op1 + op2);
        lemma_small_mod((wrap32(op1 + op2)) as nat, two32() as nat);
    }
    sign_ext64(32, s & 0xFFFF_FFFF)
}

/// Word subtract: wrap in 32 bits, then sign-extend the result to 64.
pub fn subw(op1: u64, op2: u64) -> (r: u64)
    ensures
        r == sign_ext_spec(32, wrap32(op1 - op2)),
{
    let s = crate::rv64alu::sub(op1, op2);
    proof {
        lemma_mask32_is_mod(s);
        lemma_wrap64_then_32(op1 - op2);
        lemma_small_mod((wrap32(op1 - op2)) as nat, two32() as nat);
    }
    sign_ext64(32, s & 0xFFFF_FFFF)
}

/// Word left shift: shift the low 32 bits, keep 32 bits, sign-extend.
pub fn sllw(v: u64, shamt: u64) -> (r: u64)
    ensures
        r == sign_ext_spec(32, ((v & 0xFFFF_FFFF) << (shamt & 0x1F)) & 0xFFFF_FFFF),
{
    proof {
        lemma_and_mask_bound(shamt, 0x1F);
        lemma_and_mask_bound(((v & 0xFFFF_FFFF) << (shamt & 0x1F)), 0xFFFF_FFFF);
    }
    sign_ext64(32, ((v & 0xFFFF_FFFF) << (shamt & 0x1F)) & 0xFFFF_FFFF)
}

/// Word right shift: shift the low 32 bits logically, sign-extend.
pub fn srlw(v: u64, shamt: u64) -> (r: u64)
    ensures
        r == sign_ext_spec(32, (v & 0xFFFF_FFFF) >> (shamt & 0x1F)),
{
    proof {
        lemma_and_mask_bound(shamt, 0x1F);
    }
    sign_ext64(32, (v & 0xFFFF_FFFF) >> (shamt & 0x1F))
}

/// Word arithmetic right shift of the low 32 bits, sign-extended to 64.
pub open spec fn sraw_spec(v: u64, shamt: u64) -> u64 {
    sign_ext_spec((32 - (shamt & 0x1F)) as u64, (v & 0xFFFF_FFFF) >> (shamt & 0x1F))
}

/// Word arithmetic right shift by the low five bits of the shift amount.
pub fn sraw(v: u64, shamt: u64) -> (r: u64)
    ensures
        r == sraw_spec(v, shamt),
{
    proof {
        lemma_and_mask_bound(shamt, 0x1F);
    }
    let sh = shamt & 0x1F;
    sign_ext64(32 - sh, (v & 0xFFFF_FFFF) >> sh)
}

/// Unsigned 64-bit division; division by zero yields all ones.
pub fn divu(n: u64, d: u64) -> (r: u64)
    ensures
        d == 0 ==> r == u64::MAX,
        d != 0 ==> r == n as int / d as int,
{
    if d == 0 {
        u64::MAX
    } else {
        n / d
    }
}

/// Unsigned 64-bit remainder; remainder by zero yields the dividend.
pub fn remu(n: u64, d: u64) -> (r: u64)
    ensures
        d == 0 ==> r == n,
        d != 0 ==> r == n as int % d as int,
{
    if d == 0 {
        n
    } else {
        n % d
    }
}

proof fn lemma_trunc_div_bounds(a: int, b: int)
    requires
        -0x8000_0000_0000_0000 <= a < 0x8000_0000_0000_0000,
        b != 0,
        !(a == -0x8000_0000_0000_0000 && b == -1),
    ensures
        -0x8000_0000_0000_0000 <= trunc_div(a, b) < 0x8000_0000_0000_0000,
{
    broadcast use vstd::arithmetic::div_mod::lemma_div_nonincreasing;
    broadcast use vstd::arithmetic::div_mod::lemma_div_pos_is_pos;
    broadcast use vstd::arithmetic::div_mod::lemma_div_is_ordered_by_denominator;

    if a == 0 {
    } else if a > 0 && b > 0 {
        assert(0 <= a / b <= a);
    } else if a < 0 && b < 0 {
        assert(0 <= (a * -1) / (b * -1) <= a * -1);
        if a == -0x8000_0000_0000_0000 {
            assert(b * -1 >= 2);
            assert((a * -1) / (b * -1) <= (a * -1) / 2) by {
                lemma_div_is_ordered_by_denominator(a * -1, 2, b * -1);
            }
            assert((a * -1) / 2 == 0x4000_0000_0000_0000);
        }
    } else if a < 0 {
        assert(0 <= (a * -1) / b <= a * -1);
    } else {
        assert(0 <= a / (b * -1) <= a);
    }
}

/// Signed 64-bit division with the machine's fixed rules: division by zero
/// yields all ones; the overflowing `MIN / -1` yields the dividend.
pub fn div(n: u64, d: u64) -> (r: u64)
    ensures
        d == 0 ==> r == u64::MAX,
        d != 0 ==> r == wrap64(trunc_div(s64(n), s64(d))),
{
    let sn = n as i64;
    let sd = d as i64;
    proof {
        lemma_u64_as_i64(n);
        lemma_u64_as_i64(d);
    }
    if sd == 0 {
        u64::MAX
    } else if sn == i64::MIN && sd == -1 {
        proof {
            assert(trunc_div(-0x8000_0000_0000_0000, -1) == 0x8000_0000_0000_0000);
            lemma_wrap64_small(0x8000_0000_0000_0000);
        }
        n
    } else {
        proof {
            lemma_trunc_div_bounds(sn as int, sd as int);
        }
        match sn.checked_div(sd) {
            Some(q) => {
                proof {
                    lemma_i64_as_u64(q);
                    if q >= 0 {
                        lemma_wrap64_small(q as int);
                    } else {
                        lemma_wrap64_neg(q as int);
                    }
                }
                q as u64
            },
            None => {
                proof {
                    assert(false);
                }
                0
            },
        }
    }
}

/// Signed 64-bit remainder: remainder by zero yields the dividend; the
/// overflowing `MIN % -1` yields zero.
pub fn rem(n: u64, d: u64) -> (r: u64)
    ensures
        d == 0 ==> r == n,
        d != 0 ==> r == wrap64(trunc_rem(s64(n), s64(d))),
{
    let sn = n as i64;
    let sd = d as i64;
    proof {
        lemma_u64_as_i64(n);
        lemma_u64_as_i64(d);
    }
    if sd == 0 {
        n
    } else if sn == i64::MIN && sd == -1 {
        proof {
            assert(trunc_rem(-0x8000_0000_0000_0000, -1) == 0);
            lemma_wrap64_small(0);
        }
        0
    } else {
        match sn.checked_rem(sd) {
            Some(q) => {
                proof {
                    lemma_i64_as_u64(q);
                    if q >= 0 {
                        lemma_wrap64_small(q as int);
                    } else {
                        lemma_wrap64_neg(q as int);
                    }
                }
                q as u64
            },
            None => {
                proof {
                    assert(false);
                }
                0
            },
        }
    }
}

/// What a sign-extended narrow value reads as when the whole word is taken
/// as signed: the two's-complement value of the narrow width.
pub proof fn lemma_sign_ext_signed_value(v: u64)
    by (bit_vector)
    ensures
        v < 0x100 ==> s64(sign_ext_spec(8, v)) == (if v < 0x80 {
            v as int
        } else {
            v as int - 0x100
        }),
        v < 0x1_0000 ==> s64(sign_ext_spec(16, v)) == (if v < 0x8000 {
            v as int
        } else {
            v as int - 0x1_0000
        }),
        v < 0x1_0000_0000 ==> s64(sign_ext_spec(32, v)) == (if v < 0x8000_0000 {
            v as int
        } else {
            v as int - 0x1_0000_0000
        }),
{
}

proof fn lemma_wrap32_small(x: int)
    requires
        0 <= x < two32(),
    ensures
        wrap32(x) == x,
{
    lemma_small_mod(x as nat, two32() as nat);
}

proof fn lemma_wrap32_neg(x: int)
    requires
        -two32() <= x < 0,
    ensures
        wrap32(x) == x + two32(),
{
    lemma_mod_add_multiples_vanish(x, two32());
    lemma_small_mod((x + two32()) as nat, two32() as nat);
}

/// How the low half of a word reads as an `i32`, and how an `i32` reads back.
proof fn lemma_u64_low_as_i32(v: u64)
    by (bit_vector)
    ensures
        (v & 0xFFFF_FFFF) < 0x8000_0000 ==> ((v as u32) as i32) as int == (v
            & 0xFFFF_FFFF) as int,
        (v & 0xFFFF_FFFF) >= 0x8000_0000 ==> ((v as u32) as i32) as int == (v
            & 0xFFFF_FFFF) as int - 0x1_0000_0000,
{
}

proof fn lemma_i32_as_u64(x: i32)
    by (bit_vector)
    ensures
        x >= 0 ==> (x as u64) as int == x as int,
        x < 0 ==> ((x as u32) as u64) as int == x as int + 0x1_0000_0000,
        x >= 0 ==> (x as u32) as u64 == x as u64,
        ((x as u32) as u64) & 0xFFFF_FFFF == (x as u32) as u64,
{
}

proof fn lemma_trunc_div_bounds32(a: int, b: int)
    requires
        -0x8000_0000 <= a < 0x8000_0000,
        b != 0,
        !(a == -0x8000_0000 && b == -1),
    ensures
        -0x8000_0000 <= trunc_div(a, b) < 0x8000_0000,
{
    broadcast use vstd::arithmetic::div_mod::lemma_div_nonincreasing;
    broadcast use vstd::arithmetic::div_mod::lemma_div_pos_is_pos;

    if a == 0 {
    } else if a > 0 && b > 0 {
        assert(0 <= a / b <= a);
    } else if a < 0 && b < 0 {
        assert(0 <= (a * -1) / (b * -1) <= a * -1);
        if a == -0x8000_0000 {
            assert(b * -1 >= 2);
            assert((a * -1) / (b * -1) <= (a * -1) / 2) by {
                lemma_div_is_ordered_by_denominator(a * -1, 2, b * -1);
            }
            assert((a * -1) / 2 == 0x4000_0000);
        }
    } else if a < 0 {
        assert(0 <= (a * -1) / b <= a * -1);
    } else {
        assert(0 <= a / (b * -1) <= a);
    }
}

/// Signed word division on the low 32 bits, sign-extended to 64 bits.
pub fn divw(n: u64, d: u64) -> (r: u64)
    ensures
        s32(d) == 0 ==> r == u64::MAX,
        s32(d) != 0 ==> r == sign_ext_spec(32, wrap32(trunc_div(s32(n), s32(d)))),
{
    let sn = (n as u32) as i32;
    let sd = (d as u32) as i32;
    proof {
        lemma_u64_low_as_i32(n);
        lemma_u64_low_as_i32(d);
    }
    if sd == 0 {
        u64::MAX
    } else if sn == i32::MIN && sd == -1 {
        proof {
            assert(trunc_div(-0x8000_0000, -1) == 0x8000_0000);
            lemma_wrap32_small(0x8000_0000);
        }
        sign_ext64(32, 0x8000_0000)
    } else {
        proof {
            lemma_trunc_div_bounds32(sn as int, sd as int);
        }
        match sn.checked_div(sd) {
            Some(q) => {
                proof {
                    lemma_i32_as_u64(q);
                    if q >= 0 {
                        lemma_wrap32_small(q as int);
                    } else {
                        lemma_wrap32_neg(q as int);
                    }
                }
                sign_ext64(32, (q as u32) as u64)
            },
            None => {
                proof {
                    assert(false);
                }
                0
            },
        }
    }
}

/// Signed word remainder on the low 32 bits, sign-extended to 64 bits.
pub fn remw(n: u64, d: u64) -> (r: u64)
    ensures
        s32(d) == 0 ==> r == sign_ext_spec(32, (n & 0xFFFF_FFFF)),
        s32(d) != 0 ==> r == sign_ext_spec(32, wrap32(trunc_rem(s32(n), s32(d)))),
{
    let sn = (n as u32) as i32;
    let sd = (d as u32) as i32;
    proof {
        lemma_u64_low_as_i32(n);
        lemma_u64_low_as_i32(d);
        lemma_mask32_is_mod(n);
    }
    if sd == 0 {
        sign_ext64(32, n & 0xFFFF_FFFF)
    } else if sn == i32::MIN && sd == -1 {
        proof {
            assert(trunc_rem(-0x8000_0000, -1) == 0);
            lemma_wrap32_small(0);
        }
        sign_ext64(32, 0)
    } else {
        match sn.checked_rem(sd) {
            Some(q) => {
                proof {
                    lemma_i32_as_u64(q);
                    if q >= 0 {
                        lemma_wrap32_small(q as int);
                    } else {
                        lemma_wrap32_neg(q as int);
                    }
                }
                sign_ext64(32, (q as u32) as u64)
            },
            None => {
                proof {
                    assert(false);
                }
                0
            },
        }
    }
}

/// Unsigned word division on the low 32 bits, sign-extended to 64 bits.
pub fn divuw(n: u64, d: u64) -> (r: u64)
    ensures
        (d & 0xFFFF_FFFF) == 0 ==> r == u64::MAX,
        (d & 0xFFFF_FFFF) != 0 ==> r == sign_ext_spec(
            32,
            ((n & 0xFFFF_FFFF) as int / (d & 0xFFFF_FFFF) as int) as u64,
        ),
{
    let n32 = n & 0xFFFF_FFFF;
    let d32 = d & 0xFFFF_FFFF;
    if d32 == 0 {
        u64::MAX
    } else {
        proof {
            broadcast use vstd::arithmetic::div_mod::lemma_div_nonincreasing;
            broadcast use vstd::arithmetic::div_mod::lemma_div_pos_is_pos;

            lemma_mask32_is_mod(n);
        }
        sign_ext64(32, n32 / d32)
    }
}

/// Unsigned word remainder on the low 32 bits, sign-extended to 64 bits.
pub fn remuw(n: u64, d: u64) -> (r: u64)
    ensures
        (d & 0xFFFF_FFFF) == 0 ==> r == sign_ext_spec(32, (n & 0xFFFF_FFFF)),
        (d & 0xFFFF_FFFF) != 0 ==> r == sign_ext_spec(
            32,
            ((n & 0xFFFF_FFFF) as int % (d & 0xFFFF_FFFF) as int) as u64,
        ),
{
    let n32 = n & 0xFFFF_FFFF;
    let d32 = d & 0xFFFF_FFFF;
    proof {
        lemma_mask32_is_mod(n);
    }
    if d32 == 0 {
        sign_ext64(32, n32)
    } else {
        sign_ext64(32, n32 % d32)
    }
}

} // verus!
