//! Integer arithmetic of the base set and of the multiply/divide extension, as pure
//! functions on register values.
use crate::fields::{extend_sign_128bit, extend_sign_32bit, extend_sign_n, sext, truncate_top_32bit};
use vstd::prelude::*;
use vstd::wrapping::u64_specs;
use vstd::wrapping::u128_specs;

verus! {

pub open spec fn wadd(a: u64, b: u64) -> u64 {
    u64_specs::wrapping_add(a, b)
}

pub open spec fn wsub(a: u64, b: u64) -> u64 {
    u64_specs::wrapping_sub(a, b)
}

pub open spec fn wmul(a: u64, b: u64) -> u64 {
    u64_specs::wrapping_mul(a, b)
}

pub open spec fn low32(a: u64) -> u64 {
    a & 0xffff_ffff
}

/// A 32-bit result sign-extended to 64 bits.
pub open spec fn w32(a: u64) -> u64 {
    sext(low32(a), 32)
}

/// The two's-complement value of a 64-bit pattern.
pub open spec fn signed(a: u64) -> int {
    if a >= 0x8000_0000_0000_0000 {
        a - 0x1_0000_0000_0000_0000
    } else {
        a as int
    }
}

/// The two's-complement value of a 32-bit pattern.
pub open spec fn signed32(a: u64) -> int
    recommends
        a < 0x1_0000_0000,
{
    if a >= 0x8000_0000 {
        a - 0x1_0000_0000
    } else {
        a as int
    }
}

/// The 64-bit pattern of an integer in `(-2^64, 2^64)`.
pub open spec fn pattern(i: int) -> u64 {
    if i < 0 {
        (i + 0x1_0000_0000_0000_0000) as u64
    } else {
        i as u64
    }
}

pub open spec fn abs(i: int) -> int {
    if i < 0 {
        -i
    } else {
        i
    }
}

/// Division rounded toward zero.
pub open spec fn div_trunc(x: int, y: int) -> int {
    let q = abs(x) / abs(y);
    if (x < 0) != (y < 0) {
        -q
    } else {
        q
    }
}

/// The remainder of division rounded toward zero: it has the sign of the dividend.
pub open spec fn rem_trunc(x: int, y: int) -> int {
    let r = abs(x) % abs(y);
    if x < 0 {
        -r
    } else {
        r
    }
}

pub open spec fn bool_u64(b: bool) -> u64 {
    if b {
        1
    } else {
        0
    }
}

/// Arithmetic right shift of a 64-bit value by `sh < 64`.
pub open spec fn sra64(a: u64, sh: u64) -> u64 {
    sext(a >> sh, (64 - sh) as u64)
}

/// Arithmetic right shift of the low 32 bits by `sh < 32`, sign-extended to 64 bits.
pub open spec fn sra32(a: u64, sh: u64) -> u64 {
    sext(low32(a) >> sh, (32 - sh) as u64)
}

/// A 64-bit value sign-extended to 128 bits.
pub open spec fn sext128(a: u64) -> u128 {
    if a < 0x8000_0000_0000_0000 {
        a as u128
    } else {
        (a + 0xffff_ffff_ffff_ffff_0000_0000_0000_0000) as u128
    }
}

/// Upper 64 bits of the signed × signed product.
pub open spec fn mulh(a: u64, b: u64) -> u64 {
    (u128_specs::wrapping_mul(sext128(a), sext128(b)) >> 64u128) as u64
}

/// Upper 64 bits of the signed × unsigned product.
pub open spec fn mulhsu(a: u64, b: u64) -> u64 {
    (u128_specs::wrapping_mul(sext128(a), b as u128) >> 64u128) as u64
}

/// Upper 64 bits of the unsigned × unsigned product.
pub open spec fn mulhu(a: u64, b: u64) -> u64 {
    ((((a as u128) * (b as u128)) as u128) >> 64u128) as u64
}

/// Signed division: all ones on a zero divisor; the most negative value divided by −1
/// gives the dividend back.
pub open spec fn div64(a: u64, b: u64) -> u64 {
    if b == 0 {
        u64::MAX
    } else {
        pattern(div_trunc(signed(a), signed(b)))
    }
}

/// Unsigned division: all ones on a zero divisor.
pub open spec fn divu64(a: u64, b: u64) -> u64 {
    if b == 0 {
        u64::MAX
    } else {
        a / b
    }
}

/// Signed remainder: the dividend on a zero divisor.
pub open spec fn rem64(a: u64, b: u64) -> u64 {
    if b == 0 {
        a
    } else {
        pattern(rem_trunc(signed(a), signed(b)))
    }
}

/// Unsigned remainder: the dividend on a zero divisor.
pub open spec fn remu64(a: u64, b: u64) -> u64 {
    if b == 0 {
        a
    } else {
        a % b
    }
}

pub open spec fn divw(a: u64, b: u64) -> u64 {
    if low32(b) == 0 {
        u64::MAX
    } else {
        w32(pattern(div_trunc(signed32(low32(a)), signed32(low32(b)))))
    }
}

pub open spec fn divuw(a: u64, b: u64) -> u64 {
    if low32(b) == 0 {
        u64::MAX
    } else {
        w32(low32(a) / low32(b))
    }
}

pub open spec fn remw(a: u64, b: u64) -> u64 {
    if low32(b) == 0 {
        w32(a)
    } else {
        w32(pattern(rem_trunc(signed32(low32(a)), signed32(low32(b)))))
    }
}

pub open spec fn remuw(a: u64, b: u64) -> u64 {
    if low32(b) == 0 {
        w32(a)
    } else {
        w32(low32(a) % low32(b))
    }
}

pub proof fn lemma_and_le64(x: u64, m: u64)
    by (bit_vector)
    ensures
        x & m <= m,
{
}

pub proof fn lemma_low32(x: u64)
    by (bit_vector)
    ensures
        x & 0xffff_ffff < 0x1_0000_0000,
{
}

/// Signed comparison of two register values.

/// Signed comparison of two register values.
pub fn signed_less(a: u64, b: u64) -> (r: bool)
    ensures
        r == (signed(a) < signed(b)),
{
    if a >= 0x8000_0000_0000_0000 {
        if b >= 0x8000_0000_0000_0000 {
            a < b
        } else {
            true
        }
    } else {
        if b >= 0x8000_0000_0000_0000 {
            false
        } else {
            a < b
        }
    }
}

fn to_w32(a: u64) -> (r: u64)
    ensures
        r == w32(a),
{
    extend_sign_32bit(truncate_top_32bit(a))
}

fn shift_right_arith(a: u64, sh: u64) -> (r: u64)
    requires
        sh < 64,
    ensures
        r == sra64(a, sh),
{
    extend_sign_n(a >> sh, 63 - sh)
}

fn shift_right_arith_w(a: u64, sh: u64) -> (r: u64)
    requires
        sh < 32,
    ensures
        r == sra32(a, sh),
{
    extend_sign_n(truncate_top_32bit(a) >> sh, 31 - sh)
}

/// The magnitude of a two's-complement value, as a pattern.
fn magnitude(a: u64) -> (r: u64)
    ensures
        r == abs(signed(a)),
{
    if a >= 0x8000_0000_0000_0000 {
        0u64.wrapping_sub(a)
    } else {
        a
    }
}

fn magnitude32(a: u64) -> (r: u64)
    requires
        a < 0x1_0000_0000,
    ensures
        r == abs(signed32(a)),
{
    if a >= 0x8000_0000 {
        0x1_0000_0000 - a
    } else {
        a
    }
}

/// The pattern of `q` or of `-q`.
fn apply_sign(q: u64, negative: bool) -> (r: u64)
    ensures
        r == pattern(if negative { -q } else { q as int }),
{
    if negative {
        0u64.wrapping_sub(q)
    } else {
        q
    }
}

fn div(a: u64, b: u64) -> (r: u64)
    ensures
        r == div64(a, b),
{
    if b == 0 {
        return u64::MAX;
    }
    let q = magnitude(a) / magnitude(b);
    apply_sign(q, (a >= 0x8000_0000_0000_0000) != (b >= 0x8000_0000_0000_0000))
}

fn rem(a: u64, b: u64) -> (r: u64)
    ensures
        r == rem64(a, b),
{
    if b == 0 {
        return a;
    }
    let m = magnitude(a) % magnitude(b);
    apply_sign(m, a >= 0x8000_0000_0000_0000)
}

fn div_w(a: u64, b: u64) -> (r: u64)
    ensures
        r == divw(a, b),
{
    let x = truncate_top_32bit(a);
    let y = truncate_top_32bit(b);
    proof {
        lemma_low32(a);
        lemma_low32(b);
    }
    if y == 0 {
        return u64::MAX;
    }
    let q = magnitude32(x) / magnitude32(y);
    to_w32(apply_sign(q, (x >= 0x8000_0000) != (y >= 0x8000_0000)))
}

fn rem_w(a: u64, b: u64) -> (r: u64)
    ensures
        r == remw(a, b),
{
    let x = truncate_top_32bit(a);
    let y = truncate_top_32bit(b);
    proof {
        lemma_low32(a);
        lemma_low32(b);
    }
    if y == 0 {
        return to_w32(a);
    }
    let m = magnitude32(x) % magnitude32(y);
    to_w32(apply_sign(m, x >= 0x8000_0000))
}

fn mul_high(a: u64, b: u64) -> (r: u64)
    ensures
        r == mulh(a, b),
{
    (extend_sign_128bit(a).wrapping_mul(extend_sign_128bit(b)) >> 64u128) as u64
}

fn mul_high_su(a: u64, b: u64) -> (r: u64)
    ensures
        r == mulhsu(a, b),
{
    (extend_sign_128bit(a).wrapping_mul(b as u128) >> 64u128) as u64
}

fn mul_high_u(a: u64, b: u64) -> (r: u64)
    ensures
        r == mulhu(a, b),
{
    assert((a as u128) * (b as u128) <= u128::MAX) by (nonlinear_arith);
    (((a as u128) * (b as u128)) >> 64u128) as u64
}

/// The result of a register-register operation (`OP`), by `funct7` and `funct3`.
pub open spec fn op_result(f7: u64, f3: u64, a: u64, b: u64) -> Option<u64> {
    if f7 == 0 {
        Some(
            if f3 == 0 {
                wadd(a, b)
            } else if f3 == 1 {
                a << (b & 0x3f)
            } else if f3 == 2 {
                bool_u64(signed(a) < signed(b))
            } else if f3 == 3 {
                bool_u64(a < b)
            } else if f3 == 4 {
                a ^ b
            } else if f3 == 5 {
                a >> (b & 0x3f)
            } else if f3 == 6 {
                a | b
            } else {
                a & b
            },
        )
    } else if f7 == 1 {
        Some(
            if f3 == 0 {
                wmul(a, b)
            } else if f3 == 1 {
                mulh(a, b)
            } else if f3 == 2 {
                mulhsu(a, b)
            } else if f3 == 3 {
                mulhu(a, b)
            } else if f3 == 4 {
                div64(a, b)
            } else if f3 == 5 {
                divu64(a, b)
            } else if f3 == 6 {
                rem64(a, b)
            } else {
                remu64(a, b)
            },
        )
    } else if f7 == 0x20 && f3 == 0 {
        Some(wsub(a, b))
    } else if f7 == 0x20 && f3 == 5 {
        Some(sra64(a, b & 0x3f))
    } else {
        None
    }
}

/// The value of a register-register operation.

/// The value of a register-register operation.
pub fn compute_op(f7: u64, f3: u64, a: u64, b: u64) -> (r: Option<u64>)
    ensures
        r == op_result(f7, f3, a, b),
{
    proof {
        lemma_and_le64(b, 0x3f);
    }
    if f7 == 0 {
        Some(
            if f3 == 0 {
                a.wrapping_add(b)
            } else if f3 == 1 {
                a << (b & 0x3f)
            } else if f3 == 2 {
                if signed_less(a, b) { 1 } else { 0 }
            } else if f3 == 3 {
                if a < b { 1 } else { 0 }
            } else if f3 == 4 {
                a ^ b
            } else if f3 == 5 {
                a >> (b & 0x3f)
            } else if f3 == 6 {
                a | b
            } else {
                a & b
            },
        )
    } else if f7 == 1 {
        Some(
            if f3 == 0 {
                a.wrapping_mul(b)
            } else if f3 == 1 {
                mul_high(a, b)
            } else if f3 == 2 {
                mul_high_su(a, b)
            } else if f3 == 3 {
                mul_high_u(a, b)
            } else if f3 == 4 {
                div(a, b)
            } else if f3 == 5 {
                if b == 0 { u64::MAX } else { a / b }
            } else if f3 == 6 {
                rem(a, b)
            } else {
                if b == 0 { a } else { a % b }
            },
        )
    } else if f7 == 0x20 && f3 == 0 {
        Some(a.wrapping_sub(b))
    } else if f7 == 0x20 && f3 == 5 {
        Some(shift_right_arith(a, b & 0x3f))
    } else {
        None
    }
}

/// The result of a 32-bit register-register operation (`OP-32`).
pub open spec fn op32_result(f7: u64, f3: u64, a: u64, b: u64) -> Option<u64> {
    if f7 == 0 && f3 == 0 {
        Some(w32(wadd(a, b)))
    } else if f7 == 0x20 && f3 == 0 {
        Some(w32(wsub(a, b)))
    } else if f7 == 0 && f3 == 1 {
        Some(w32(a << (b & 0x1f)))
    } else if f7 == 0 && f3 == 5 {
        Some(w32(low32(a) >> (b & 0x1f)))
    } else if f7 == 0x20 && f3 == 5 {
        Some(sra32(a, b & 0x1f))
    } else if f7 == 1 && f3 == 0 {
        Some(w32(wmul(a, b)))
    } else if f7 == 1 && f3 == 4 {
        Some(divw(a, b))
    } else if f7 == 1 && f3 == 5 {
        Some(divuw(a, b))
    } else if f7 == 1 && f3 == 6 {
        Some(remw(a, b))
    } else if f7 == 1 && f3 == 7 {
        Some(remuw(a, b))
    } else {
        None
    }
}

/// The value of a 32-bit register-register operation.

/// The value of a 32-bit register-register operation.
pub fn compute_op32(f7: u64, f3: u64, a: u64, b: u64) -> (r: Option<u64>)
    ensures
        r == op32_result(f7, f3, a, b),
{
    proof {
        lemma_and_le64(b, 0x1f);
        lemma_low32(a);
        lemma_low32(b);
    }
    if f7 == 0 && f3 == 0 {
        Some(to_w32(a.wrapping_add(b)))
    } else if f7 == 0x20 && f3 == 0 {
        Some(to_w32(a.wrapping_sub(b)))
    } else if f7 == 0 && f3 == 1 {
        Some(to_w32(a << (b & 0x1f)))
    } else if f7 == 0 && f3 == 5 {
        Some(to_w32(truncate_top_32bit(a) >> (b & 0x1f)))
    } else if f7 == 0x20 && f3 == 5 {
        Some(shift_right_arith_w(a, b & 0x1f))
    } else if f7 == 1 && f3 == 0 {
        Some(to_w32(a.wrapping_mul(b)))
    } else if f7 == 1 && f3 == 4 {
        Some(div_w(a, b))
    } else if f7 == 1 && f3 == 5 {
        let y = truncate_top_32bit(b);
        Some(if y == 0 { u64::MAX } else { to_w32(truncate_top_32bit(a) / y) })
    } else if f7 == 1 && f3 == 6 {
        Some(rem_w(a, b))
    } else if f7 == 1 && f3 == 7 {
        let y = truncate_top_32bit(b);
        Some(if y == 0 { to_w32(a) } else { to_w32(truncate_top_32bit(a) % y) })
    } else {
        None
    }
}

/// The result of a register-immediate operation (`OP-IMM`); `top6` is `word[31:26]`.
pub open spec fn op_imm_result(f3: u64, top6: u64, imm: u64, shamt: u64, a: u64) -> Option<u64> {
    if f3 == 0 {
        Some(wadd(a, imm))
    } else if f3 == 1 {
        if top6 == 0 {
            Some(a << shamt)
        } else {
            None
        }
    } else if f3 == 2 {
        Some(bool_u64(signed(a) < signed(imm)))
    } else if f3 == 3 {
        Some(bool_u64(a < imm))
    } else if f3 == 4 {
        Some(a ^ imm)
    } else if f3 == 5 {
        if top6 == 0 {
            Some(a >> shamt)
        } else if top6 == 0x10 {
            Some(sra64(a, shamt))
        } else {
            None
        }
    } else if f3 == 6 {
        Some(a | imm)
    } else {
        Some(a & imm)
    }
}

/// The value of a register-immediate operation.

/// The value of a register-immediate operation.
pub fn compute_op_imm(f3: u64, top6: u64, imm: u64, shamt: u64, a: u64) -> (r: Option<u64>)
    requires
        shamt < 64,
    ensures
        r == op_imm_result(f3, top6, imm, shamt, a),
{
    if f3 == 0 {
        Some(a.wrapping_add(imm))
    } else if f3 == 1 {
        if top6 == 0 {
            Some(a << shamt)
        } else {
            None
        }
    } else if f3 == 2 {
        Some(if signed_less(a, imm) { 1 } else { 0 })
    } else if f3 == 3 {
        Some(if a < imm { 1 } else { 0 })
    } else if f3 == 4 {
        Some(a ^ imm)
    } else if f3 == 5 {
        if top6 == 0 {
            Some(a >> shamt)
        } else if top6 == 0x10 {
            Some(shift_right_arith(a, shamt))
        } else {
            None
        }
    } else if f3 == 6 {
        Some(a | imm)
    } else {
        Some(a & imm)
    }
}

/// The result of a 32-bit register-immediate operation (`OP-IMM-32`); `top7` is
/// `word[31:25]` and `shamt` is `word[24:20]`, so a shift amount of 32 or more is illegal.
pub open spec fn op_imm32_result(f3: u64, top7: u64, imm: u64, shamt: u64, a: u64) -> Option<u64> {
    if f3 == 0 {
        Some(w32(wadd(a, imm)))
    } else if f3 == 1 && top7 == 0 {
        Some(w32(a << shamt))
    } else if f3 == 5 && top7 == 0 {
        Some(w32(low32(a) >> shamt))
    } else if f3 == 5 && top7 == 0x20 {
        Some(sra32(a, shamt))
    } else {
        None
    }
}

/// The value of a 32-bit register-immediate operation.

/// The value of a 32-bit register-immediate operation.
pub fn compute_op_imm32(f3: u64, top7: u64, imm: u64, shamt: u64, a: u64) -> (r: Option<u64>)
    requires
        shamt < 32,
    ensures
        r == op_imm32_result(f3, top7, imm, shamt, a),
{
    proof {
        lemma_low32(a);
    }
    if f3 == 0 {
        Some(to_w32(a.wrapping_add(imm)))
    } else if f3 == 1 && top7 == 0 {
        Some(to_w32(a << shamt))
    } else if f3 == 5 && top7 == 0 {
        Some(to_w32(truncate_top_32bit(a) >> shamt))
    } else if f3 == 5 && top7 == 0x20 {
        Some(shift_right_arith_w(a, shamt))
    } else {
        None
    }
}

} // verus!
