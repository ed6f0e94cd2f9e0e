//! The single- and double-precision floating-point extensions.
//!
//! Correctly rounded arithmetic, conversions and IEEE comparisons come from a soft-float
//! library outside this crate. The hart asks for one such operation at a time: for the
//! instruction at `pc`, [`Rv64SGEmulator::fp_request`] names the operation, its operand bit
//! patterns and its rounding mode, and the caller hands the outcome to the step. Everything
//! else (decoding, NaN-boxing and unboxing, operand negation, sign injection, min/max,
//! classification, register moves, flag accrual) is done and proved here.
use crate::alu::{low32, w32};
use crate::fields::{
    extend_sign_32bit, extract_funct3, extract_funct7, extract_rd, extract_rs1, extract_rs2,
    extract_rs3, funct3_field, funct7_field, instruction_word, is_boxed, nan_boxing, opcode_field,
    rd_field, rs1_field, rs2_field, rs3_field, sext, truncate_top_32bit, word_of,
};
use crate::machine::{MachineState, Rv64SGEmulator, CAUSE_ILLEGAL_INSTRUCTION, FCSR};
use vstd::prelude::*;

verus! {

/// An operation of the soft-float library.
#[derive(Clone, Copy, PartialEq, Eq, Debug, Structural)]
pub enum FpOp {
    Add,
    Sub,
    Mul,
    Div,
    Sqrt,
    /// `a * b + c`, rounded once.
    MulAdd,
    /// Quiet equality.
    Eq,
    /// Signaling less-than.
    Lt,
    /// Signaling less-or-equal.
    Le,
    ToI32,
    ToU32,
    ToI64,
    ToU64,
    FromI32,
    FromU32,
    FromI64,
    FromU64,
    /// Double to single.
    ToSingle,
    /// Single to double.
    ToDouble,
}

/// One soft-float operation. `double` is the precision of the float operands (of the
/// result for the `From*` conversions; `ToSingle` reads a double, `ToDouble` a single).
/// Single-precision operands are bit patterns below 2^32; integer sources of the `From*`
/// conversions are register values, of which the 32-bit forms read the low half.
/// `rm` is the rounding mode, 0..=4.
#[derive(Clone, Copy, PartialEq, Eq, Debug, Structural)]
pub struct FpRequest {
    pub op: FpOp,
    pub double: bool,
    pub a: u64,
    pub b: u64,
    pub c: u64,
    pub rm: u64,
}

/// The outcome of an [`FpRequest`]: the result bits (a float pattern, an integer pattern of
/// the target width, or 1/0 for a comparison) and the exception flags raised, in `fflags`
/// layout (inexact 1, underflow 2, overflow 4, divide-by-zero 8, invalid 16).
#[derive(Clone, Copy, PartialEq, Eq, Debug, Structural)]
pub struct FpResult {
    pub bits: u64,
    pub flags: u64,
}

pub const CANONICAL_NAN_32: u64 = 0x7fc0_0000;
pub const CANONICAL_NAN_64: u64 = 0x7ff8_0000_0000_0000;
pub const FLAG_INVALID: u64 = 0x10;

/// A float operand read from a float-register cell: a single is read only from a
/// NaN-boxed cell, else it is the canonical quiet NaN.
pub open spec fn unbox(cell: u64, double: bool) -> u64 {
    if double {
        cell
    } else if is_boxed(cell) {
        cell & 0xffff_ffff
    } else {
        CANONICAL_NAN_32
    }
}

pub open spec fn sign_bit(double: bool) -> u64 {
    if double {
        0x8000_0000_0000_0000
    } else {
        0x8000_0000
    }
}

/// A float result written to a float-register cell: a single is NaN-boxed.
pub open spec fn boxed_result(v: u64, double: bool) -> u64 {
    if double {
        v
    } else {
        v | 0xffff_ffff_0000_0000
    }
}

pub open spec fn is_nan_bits(v: u64, double: bool) -> bool {
    if double {
        (v >> 52u64) & 0x7ff == 0x7ff && v & 0xf_ffff_ffff_ffff != 0
    } else {
        (v >> 23u64) & 0xff == 0xff && v & 0x7f_ffff != 0
    }
}

pub open spec fn is_snan_bits(v: u64, double: bool) -> bool {
    is_nan_bits(v, double) && (if double {
        v & 0x8_0000_0000_0000 == 0
    } else {
        v & 0x40_0000 == 0
    })
}

pub open spec fn is_zero_bits(v: u64, double: bool) -> bool {
    v == 0 || v == sign_bit(double)
}

pub open spec fn canonical_nan(double: bool) -> u64 {
    if double {
        CANONICAL_NAN_64
    } else {
        CANONICAL_NAN_32
    }
}

/// IEEE-754-2008 minNum / maxNum, with −0 below +0; `lt` is whether `a < b`.
pub open spec fn min_max(a: u64, b: u64, lt: bool, max: bool, double: bool) -> u64 {
    if is_nan_bits(a, double) && is_nan_bits(b, double) {
        canonical_nan(double)
    } else if is_nan_bits(a, double) {
        b
    } else if is_nan_bits(b, double) {
        a
    } else if is_zero_bits(a, double) && is_zero_bits(b, double) && a != b {
        if max {
            0
        } else {
            sign_bit(double)
        }
    } else if lt != max {
        a
    } else {
        b
    }
}

/// Sign injection: `a`'s magnitude with the sign of `b` (`f3 = 0`), its inverse (1), or
/// the exclusive or of both signs (2).
pub open spec fn sign_inject(f3: u64, a: u64, b: u64, double: bool) -> u64 {
    let sb = sign_bit(double);
    let sign = if f3 == 0 {
        b & sb
    } else if f3 == 1 {
        (b ^ sb) & sb
    } else {
        (a ^ b) & sb
    };
    (a & !sb) | sign
}

/// The class mask: bit 0 −∞, 1 −normal, 2 −subnormal, 3 −0, 4 +0, 5 +subnormal,
/// 6 +normal, 7 +∞, 8 signaling NaN, 9 quiet NaN.
pub open spec fn classify(v: u64, double: bool) -> u64 {
    let negative = v & sign_bit(double) != 0;
    let exp_all = if double { (v >> 52u64) & 0x7ff == 0x7ff } else { (v >> 23u64) & 0xff == 0xff };
    let exp_zero = if double { (v >> 52u64) & 0x7ff == 0 } else { (v >> 23u64) & 0xff == 0 };
    let frac_zero = if double { v & 0xf_ffff_ffff_ffff == 0 } else { v & 0x7f_ffff == 0 };
    if exp_all {
        if frac_zero {
            if negative { 0x1 } else { 0x80 }
        } else if is_snan_bits(v, double) {
            0x100
        } else {
            0x200
        }
    } else if exp_zero {
        if frac_zero {
            if negative { 0x8 } else { 0x10 }
        } else {
            if negative { 0x4 } else { 0x20 }
        }
    } else {
        if negative { 0x2 } else { 0x40 }
    }
}

/// The rounding mode of the instruction: `funct3`, or the `frm` field where it is 7.
pub open spec fn fp_rm(s: MachineState, w: u32) -> u64 {
    if funct3_field(w) == 7 {
        (s.csrs[FCSR as int] & 0xe0) >> 5u64
    } else {
        funct3_field(w) as u64
    }
}

pub open spec fn is_fma_opcode(op: u32) -> bool {
    op == 0x43 || op == 0x47 || op == 0x4b || op == 0x4f
}

pub open spec fn is_arith_funct7(f7: u32) -> bool {
    f7 == 0 || f7 == 1 || f7 == 4 || f7 == 5 || f7 == 8 || f7 == 9 || f7 == 0xc || f7 == 0xd
}

pub open spec fn arith_op(f7: u32) -> FpOp {
    if f7 < 4 {
        FpOp::Add
    } else if f7 < 8 {
        FpOp::Sub
    } else if f7 < 0xc {
        FpOp::Mul
    } else {
        FpOp::Div
    }
}

pub open spec fn convert_op(to_int: bool, rs2: u32) -> FpOp {
    if to_int {
        if rs2 == 0 { FpOp::ToI32 } else if rs2 == 1 { FpOp::ToU32 } else if rs2 == 2 { FpOp::ToI64 } else { FpOp::ToU64 }
    } else {
        if rs2 == 0 { FpOp::FromI32 } else if rs2 == 1 { FpOp::FromU32 } else if rs2 == 2 { FpOp::FromI64 } else { FpOp::FromU64 }
    }
}

pub open spec fn compare_op(f3: u32) -> FpOp {
    if f3 == 0 {
        FpOp::Le
    } else if f3 == 1 {
        FpOp::Lt
    } else {
        FpOp::Eq
    }
}

pub open spec fn req(op: FpOp, double: bool, a: u64, b: u64, c: u64, rm: u64) -> FpRequest {
    FpRequest { op, double, a, b, c, rm }
}

/// The soft-float operation that the instruction `w` needs in state `s`, if it needs one
/// and its encoding and rounding mode are valid.
pub open spec fn fp_request_of(s: MachineState, w: u32) -> Option<FpRequest> {
    let op = opcode_field(w);
    let f7 = funct7_field(w);
    let f3 = funct3_field(w);
    let rs2 = rs2_field(w);
    let rm = fp_rm(s, w);
    let rm_ok = rm <= 4;
    if is_fma_opcode(op) {
        let d = f7 & 3 == 1;
        if f7 & 3 > 1 || !rm_ok {
            None
        } else {
            let a = unbox(s.f[rs1_field(w) as int], d);
            let b = unbox(s.f[rs2 as int], d);
            let c = unbox(s.f[rs3_field(w) as int], d);
            let na = op == 0x4b || op == 0x4f;
            let nc = op == 0x47 || op == 0x4f;
            Some(req(FpOp::MulAdd, d, if na { a ^ sign_bit(d) } else { a }, b, if nc { c ^ sign_bit(d) } else { c }, rm))
        }
    } else if op == 0x53 {
        let d = f7 & 1 == 1;
        let a = unbox(s.f[rs1_field(w) as int], d);
        let b = unbox(s.f[rs2 as int], d);
        if is_arith_funct7(f7) && rm_ok {
            Some(req(arith_op(f7), d, a, b, 0, rm))
        } else if (f7 == 0x2c || f7 == 0x2d) && rs2 == 0 && rm_ok {
            Some(req(FpOp::Sqrt, d, a, 0, 0, rm))
        } else if (f7 == 0x14 || f7 == 0x15) && f3 <= 1 {
            Some(req(FpOp::Lt, d, a, b, 0, 0))
        } else if (f7 == 0x50 || f7 == 0x51) && f3 <= 2 {
            Some(req(compare_op(f3), d, a, b, 0, 0))
        } else if f7 == 0x20 && rs2 == 1 && rm_ok {
            Some(req(FpOp::ToSingle, true, unbox(s.f[rs1_field(w) as int], true), 0, 0, rm))
        } else if f7 == 0x21 && rs2 == 0 && rm_ok {
            Some(req(FpOp::ToDouble, false, unbox(s.f[rs1_field(w) as int], false), 0, 0, rm))
        } else if (f7 == 0x60 || f7 == 0x61) && rs2 <= 3 && rm_ok {
            Some(req(convert_op(true, rs2), d, a, 0, 0, rm))
        } else if (f7 == 0x68 || f7 == 0x69) && rs2 <= 3 && rm_ok {
            Some(req(convert_op(false, rs2), d, s.read_x(rs1_field(w) as int), 0, 0, rm))
        } else {
            None
        }
    } else {
        None
    }
}

/// Whether an operation's result is a single-precision float.
pub open spec fn single_result(r: FpRequest) -> bool {
    match r.op {
        FpOp::ToSingle => true,
        FpOp::ToDouble => false,
        _ => !r.double,
    }
}

/// The `fcsr` cell with `flags` accrued into `fflags`.
pub open spec fn accrue(s: MachineState, flags: u64) -> MachineState {
    s.write_csr_raw(FCSR as int, s.csrs[FCSR as int] | (flags & 0x1f))
}

/// Writing the outcome of the requested operation back.
pub open spec fn fp_commit(s: MachineState, w: u32, r: FpRequest, res: FpResult) -> (MachineState, bool) {
    let rd = rd_field(w) as int;
    let f7 = funct7_field(w);
    match r.op {
        FpOp::Eq | FpOp::Le => accrue(s, res.flags).write_x(rd, if res.bits != 0 { 1 } else { 0 }).next(),
        FpOp::Lt => if f7 == 0x14 || f7 == 0x15 {
            let v = min_max(r.a, r.b, res.bits != 0, funct3_field(w) == 1, r.double);
            let flags = if is_snan_bits(r.a, r.double) || is_snan_bits(r.b, r.double) { FLAG_INVALID } else { 0 };
            accrue(s, flags).write_f(rd, boxed_result(v, r.double)).next()
        } else {
            accrue(s, res.flags).write_x(rd, if res.bits != 0 { 1 } else { 0 }).next()
        },
        FpOp::ToI32 | FpOp::ToU32 => accrue(s, res.flags).write_x(rd, w32(res.bits)).next(),
        FpOp::ToI64 | FpOp::ToU64 => accrue(s, res.flags).write_x(rd, res.bits).next(),
        _ => accrue(s, res.flags).write_f(rd, boxed_result(res.bits, !single_result(r))).next(),
    }
}

/// `OP-FP` and the fused multiply-add opcodes, given the outcome `res` of the requested
/// soft-float operation (unused by the instructions that need none).
pub open spec fn fp_semantics(s: MachineState, w: u32, res: FpResult) -> (MachineState, bool) {
    let op = opcode_field(w);
    let f7 = funct7_field(w);
    let f3 = funct3_field(w);
    let rd = rd_field(w) as int;
    let rs2 = rs2_field(w);
    let d = f7 & 1 == 1;
    if op == 0x53 && (f7 == 0x10 || f7 == 0x11) {
        if f3 <= 2 {
            let v = sign_inject(f3 as u64, unbox(s.f[rs1_field(w) as int], d), unbox(s.f[rs2 as int], d), d);
            s.write_f(rd, boxed_result(v, d)).next()
        } else {
            s.raise(CAUSE_ILLEGAL_INSTRUCTION)
        }
    } else if op == 0x53 && (f7 == 0x70 || f7 == 0x71) && rs2 == 0 && f3 <= 1 {
        let cell = s.f[rs1_field(w) as int];
        if f3 == 1 {
            s.write_x(rd, classify(unbox(cell, d), d)).next()
        } else if d {
            s.write_x(rd, cell).next()
        } else {
            s.write_x(rd, w32(cell)).next()
        }
    } else if op == 0x53 && (f7 == 0x78 || f7 == 0x79) && rs2 == 0 && f3 == 0 {
        s.write_f(rd, boxed_result(s.read_x(rs1_field(w) as int), d)).next()
    } else {
        match fp_request_of(s, w) {
            None => s.raise(CAUSE_ILLEGAL_INSTRUCTION),
            Some(r) => fp_commit(s, w, r, res),
        }
    }
}

/// `LOAD-FP`: `flw` (NaN-boxed) and `fld`.
pub open spec fn fp_load_semantics(s: MachineState, w: u32) -> (MachineState, bool) {
    let f3 = funct3_field(w);
    if f3 != 2 && f3 != 3 {
        s.raise(CAUSE_ILLEGAL_INSTRUCTION)
    } else {
        let d = f3 == 3;
        let (t, v) = crate::machine::load_step(s, crate::integer::i_address(s, w), if d { 8 } else { 4 });
        match v {
            None => (t, false),
            Some(v) => t.write_f(rd_field(w) as int, boxed_result(v, d)).next(),
        }
    }
}

/// `STORE-FP`: `fsw` and `fsd`.
pub open spec fn fp_store_semantics(s: MachineState, w: u32) -> (MachineState, bool) {
    let f3 = funct3_field(w);
    if f3 != 2 && f3 != 3 {
        s.raise(CAUSE_ILLEGAL_INSTRUCTION)
    } else {
        let (t, ok) = crate::machine::store_step(
            s,
            crate::integer::s_address(s, w),
            if f3 == 3 { 8 } else { 4 },
            s.f[rs2_field(w) as int],
        );
        if ok {
            t.next()
        } else {
            (t, false)
        }
    }
}

fn is_nan_value(v: u64, double: bool) -> (r: bool)
    ensures
        r == is_nan_bits(v, double),
{
    if double {
        (v >> 52u64) & 0x7ff == 0x7ff && v & 0xf_ffff_ffff_ffff != 0
    } else {
        (v >> 23u64) & 0xff == 0xff && v & 0x7f_ffff != 0
    }
}

fn is_snan_value(v: u64, double: bool) -> (r: bool)
    ensures
        r == is_snan_bits(v, double),
{
    is_nan_value(v, double) && (if double {
        v & 0x8_0000_0000_0000 == 0
    } else {
        v & 0x40_0000 == 0
    })
}

fn sign_of(double: bool) -> (r: u64)
    ensures
        r == sign_bit(double),
{
    if double {
        0x8000_0000_0000_0000
    } else {
        0x8000_0000
    }
}

fn box_result(v: u64, double: bool) -> (r: u64)
    ensures
        r == boxed_result(v, double),
{
    if double {
        v
    } else {
        nan_boxing(v)
    }
}

/// minNum / maxNum of two operands.
pub fn compute_min_max(a: u64, b: u64, lt: bool, max: bool, double: bool) -> (r: u64)
    ensures
        r == min_max(a, b, lt, max, double),
{
    let a_nan = is_nan_value(a, double);
    let b_nan = is_nan_value(b, double);
    let sb = sign_of(double);
    if a_nan && b_nan {
        if double {
            CANONICAL_NAN_64
        } else {
            CANONICAL_NAN_32
        }
    } else if a_nan {
        b
    } else if b_nan {
        a
    } else if (a == 0 || a == sb) && (b == 0 || b == sb) && a != b {
        if max {
            0
        } else {
            sb
        }
    } else if lt != max {
        a
    } else {
        b
    }
}

/// Sign injection on float bit patterns.

/// Sign injection on float bit patterns.
pub fn compute_sign_inject(f3: u64, a: u64, b: u64, double: bool) -> (r: u64)
    ensures
        r == sign_inject(f3, a, b, double),
{
    let sb = sign_of(double);
    let sign = if f3 == 0 {
        b & sb
    } else if f3 == 1 {
        (b ^ sb) & sb
    } else {
        (a ^ b) & sb
    };
    (a & !sb) | sign
}

/// The class mask of a float bit pattern.

/// The class mask of a float bit pattern.
pub fn compute_classify(v: u64, double: bool) -> (r: u64)
    ensures
        r == classify(v, double),
{
    let negative = v & sign_of(double) != 0;
    let exp_all = if double { (v >> 52u64) & 0x7ff == 0x7ff } else { (v >> 23u64) & 0xff == 0xff };
    let exp_zero = if double { (v >> 52u64) & 0x7ff == 0 } else { (v >> 23u64) & 0xff == 0 };
    let frac_zero = if double { v & 0xf_ffff_ffff_ffff == 0 } else { v & 0x7f_ffff == 0 };
    if exp_all {
        if frac_zero {
            if negative { 0x1 } else { 0x80 }
        } else if is_snan_value(v, double) {
            0x100
        } else {
            0x200
        }
    } else if exp_zero {
        if frac_zero {
            if negative { 0x8 } else { 0x10 }
        } else {
            if negative { 0x4 } else { 0x20 }
        }
    } else {
        if negative { 0x2 } else { 0x40 }
    }
}

impl Rv64SGEmulator {
    fn freg_operand(&self, i: usize, double: bool) -> (r: u64)
        requires
            i < 32,
        ensures
            r == unbox(self@.f[i as int], double),
    {
        let cell = self.f_registers[i];
        if double {
            cell
        } else if crate::fields::is_nan_boxing(cell) {
            truncate_top_32bit(cell)
        } else {
            CANONICAL_NAN_32
        }
    }

    fn rounding_mode(&self, instruction: &Vec<u8>) -> (r: u64)
        requires
            instruction@.len() == 4,
        ensures
            r == fp_rm(self@, word_of(instruction@)),
    {
        let f3 = extract_funct3(instruction) as u64;
        if f3 == 7 {
            (self.csrs[FCSR] & 0xe0) >> 5u64
        } else {
            f3
        }
    }

    /// The soft-float operation that the instruction needs, if any.
    pub fn fp_request_for(&self, instruction: &Vec<u8>) -> (r: Option<FpRequest>)
        requires
            instruction@.len() == 4,
        ensures
            r == fp_request_of(self@, word_of(instruction@)),
    {
        let w = instruction_word(instruction);
        let op = w & 0x7f;
        let f7 = extract_funct7(instruction) as u32;
        let f3 = extract_funct3(instruction) as u32;
        let rs1 = extract_rs1(instruction);
        let rs2i = extract_rs2(instruction);
        let rs2 = rs2i as u32;
        let rm = self.rounding_mode(instruction);
        let rm_ok = rm <= 4;
        if op == 0x43 || op == 0x47 || op == 0x4b || op == 0x4f {
            let d = f7 & 3 == 1;
            if f7 & 3 > 1 || !rm_ok {
                None
            } else {
                let a = self.freg_operand(rs1, d);
                let b = self.freg_operand(rs2i, d);
                let c = self.freg_operand(extract_rs3(instruction), d);
                let na = op == 0x4b || op == 0x4f;
                let nc = op == 0x47 || op == 0x4f;
                let sb = sign_of(d);
                Some(
                    FpRequest {
                        op: FpOp::MulAdd,
                        double: d,
                        a: if na { a ^ sb } else { a },
                        b,
                        c: if nc { c ^ sb } else { c },
                        rm,
                    },
                )
            }
        } else if op == 0x53 {
            let d = f7 & 1 == 1;
            let a = self.freg_operand(rs1, d);
            let b = self.freg_operand(rs2i, d);
            if (f7 == 0 || f7 == 1 || f7 == 4 || f7 == 5 || f7 == 8 || f7 == 9 || f7 == 0xc || f7 == 0xd) && rm_ok {
                let o = if f7 < 4 {
                    FpOp::Add
                } else if f7 < 8 {
                    FpOp::Sub
                } else if f7 < 0xc {
                    FpOp::Mul
                } else {
                    FpOp::Div
                };
                Some(FpRequest { op: o, double: d, a, b, c: 0, rm })
            } else if (f7 == 0x2c || f7 == 0x2d) && rs2 == 0 && rm_ok {
                Some(FpRequest { op: FpOp::Sqrt, double: d, a, b: 0, c: 0, rm })
            } else if (f7 == 0x14 || f7 == 0x15) && f3 <= 1 {
                Some(FpRequest { op: FpOp::Lt, double: d, a, b, c: 0, rm: 0 })
            } else if (f7 == 0x50 || f7 == 0x51) && f3 <= 2 {
                let o = if f3 == 0 {
                    FpOp::Le
                } else if f3 == 1 {
                    FpOp::Lt
                } else {
                    FpOp::Eq
                };
                Some(FpRequest { op: o, double: d, a, b, c: 0, rm: 0 })
            } else if f7 == 0x20 && rs2 == 1 && rm_ok {
                let a = self.freg_operand(rs1, true);
                Some(FpRequest { op: FpOp::ToSingle, double: true, a, b: 0, c: 0, rm })
            } else if f7 == 0x21 && rs2 == 0 && rm_ok {
                let a = self.freg_operand(rs1, false);
                Some(FpRequest { op: FpOp::ToDouble, double: false, a, b: 0, c: 0, rm })
            } else if (f7 == 0x60 || f7 == 0x61) && rs2 <= 3 && rm_ok {
                let o = if rs2 == 0 {
                    FpOp::ToI32
                } else if rs2 == 1 {
                    FpOp::ToU32
                } else if rs2 == 2 {
                    FpOp::ToI64
                } else {
                    FpOp::ToU64
                };
                Some(FpRequest { op: o, double: d, a, b: 0, c: 0, rm })
            } else if (f7 == 0x68 || f7 == 0x69) && rs2 <= 3 && rm_ok {
                let o = if rs2 == 0 {
                    FpOp::FromI32
                } else if rs2 == 1 {
                    FpOp::FromU32
                } else if rs2 == 2 {
                    FpOp::FromI64
                } else {
                    FpOp::FromU64
                };
                let x = self.xreg(rs1);
                Some(FpRequest { op: o, double: d, a: x, b: 0, c: 0, rm })
            } else {
                None
            }
        } else {
            None
        }
    }

    fn accrue_flags(&mut self, flags: u64)
        ensures
            final(self)@ == accrue(old(self)@, flags),
    {
        self.csrs[FCSR] = self.csrs[FCSR] | (flags & 0x1f);
    }

    fn fp_commit_exec(&mut self, instruction: &Vec<u8>, r: FpRequest, res: FpResult) -> (ok: bool)
        requires
            instruction@.len() == 4,
        ensures
            (final(self)@, ok) == fp_commit(old(self)@, word_of(instruction@), r, res),
    {
        let rd = extract_rd(instruction);
        let f7 = extract_funct7(instruction);
        match r.op {
            FpOp::Eq | FpOp::Le => {
                self.accrue_flags(res.flags);
                self.set_xreg(rd, if res.bits != 0 { 1 } else { 0 });
            },
            FpOp::Lt => {
                if f7 == 0x14 || f7 == 0x15 {
                    let max = extract_funct3(instruction) == 1;
                    let v = compute_min_max(r.a, r.b, res.bits != 0, max, r.double);
                    let flags = if is_snan_value(r.a, r.double) || is_snan_value(r.b, r.double) {
                        FLAG_INVALID
                    } else {
                        0
                    };
                    self.accrue_flags(flags);
                    self.f_registers[rd] = box_result(v, r.double);
                } else {
                    self.accrue_flags(res.flags);
                    self.set_xreg(rd, if res.bits != 0 { 1 } else { 0 });
                }
            },
            FpOp::ToI32 | FpOp::ToU32 => {
                self.accrue_flags(res.flags);
                self.set_xreg(rd, extend_sign_32bit(truncate_top_32bit(res.bits)));
            },
            FpOp::ToI64 | FpOp::ToU64 => {
                self.accrue_flags(res.flags);
                self.set_xreg(rd, res.bits);
            },
            _ => {
                let double = match r.op {
                    FpOp::ToSingle => false,
                    FpOp::ToDouble => true,
                    _ => r.double,
                };
                self.accrue_flags(res.flags);
                self.f_registers[rd] = box_result(res.bits, double);
            },
        }
        self.next_pc()
    }

    /// Executes an `OP-FP` or fused multiply-add instruction, with `res` the outcome of the
    /// operation that [`Self::fp_request_for`] named for it.
    pub fn exec_fp(&mut self, instruction: &Vec<u8>, res: FpResult) -> (ok: bool)
        requires
            instruction@.len() == 4,
        ensures
            (final(self)@, ok) == fp_semantics(old(self)@, word_of(instruction@), res),
    {
        let w = instruction_word(instruction);
        let op = w & 0x7f;
        let f7 = extract_funct7(instruction) as u32;
        let f3 = extract_funct3(instruction) as u64;
        let rd = extract_rd(instruction);
        let rs1 = extract_rs1(instruction);
        let rs2 = extract_rs2(instruction);
        let d = f7 & 1 == 1;
        if op == 0x53 && (f7 == 0x10 || f7 == 0x11) {
            if f3 <= 2 {
                let a = self.freg_operand(rs1, d);
                let b = self.freg_operand(rs2, d);
                let v = compute_sign_inject(f3, a, b, d);
                self.f_registers[rd] = box_result(v, d);
                self.next_pc()
            } else {
                self.set_exception_cause(CAUSE_ILLEGAL_INSTRUCTION)
            }
        } else if op == 0x53 && (f7 == 0x70 || f7 == 0x71) && rs2 == 0 && f3 <= 1 {
            let cell = self.f_registers[rs1];
            let v = if f3 == 1 {
                let x = self.freg_operand(rs1, d);
                compute_classify(x, d)
            } else if d {
                cell
            } else {
                extend_sign_32bit(truncate_top_32bit(cell))
            };
            self.set_xreg(rd, v);
            self.next_pc()
        } else if op == 0x53 && (f7 == 0x78 || f7 == 0x79) && rs2 == 0 && f3 == 0 {
            let x = self.xreg(rs1);
            self.f_registers[rd] = box_result(x, d);
            self.next_pc()
        } else {
            match self.fp_request_for(instruction) {
                None => self.set_exception_cause(CAUSE_ILLEGAL_INSTRUCTION),
                Some(r) => self.fp_commit_exec(instruction, r, res),
            }
        }
    }

    /// `LOAD-FP`: `flw` and `fld`.

    /// `LOAD-FP`: `flw` and `fld`.
    pub fn exec_fp_load(&mut self, instruction: &Vec<u8>) -> (ok: bool)
        requires
            instruction@.len() == 4,
        ensures
            (final(self)@, ok) == fp_load_semantics(old(self)@, word_of(instruction@)),
    {
        let f3 = extract_funct3(instruction);
        if f3 != 2 && f3 != 3 {
            return self.set_exception_cause(CAUSE_ILLEGAL_INSTRUCTION);
        }
        let d = f3 == 3;
        let rd = extract_rd(instruction);
        let offset = crate::fields::extend_sign_12bit(crate::fields::extract_offset_11_0(instruction));
        let addr = self.xreg(extract_rs1(instruction)).wrapping_add(offset);
        match self.load(addr, if d { 8 } else { 4 }) {
            None => false,
            Some(v) => {
                self.f_registers[rd] = box_result(v, d);
                self.next_pc()
            },
        }
    }

    /// `STORE-FP`: `fsw` and `fsd`.

    /// `STORE-FP`: `fsw` and `fsd`.
    pub fn exec_fp_store(&mut self, instruction: &Vec<u8>) -> (ok: bool)
        requires
            instruction@.len() == 4,
        ensures
            (final(self)@, ok) == fp_store_semantics(old(self)@, word_of(instruction@)),
    {
        let f3 = extract_funct3(instruction);
        if f3 != 2 && f3 != 3 {
            return self.set_exception_cause(CAUSE_ILLEGAL_INSTRUCTION);
        }
        let offset = crate::fields::extend_sign_12bit(crate::fields::extract_offset_11_5_4_0(instruction));
        let addr = self.xreg(extract_rs1(instruction)).wrapping_add(offset);
        let value = self.f_registers[extract_rs2(instruction)];
        if self.store(addr, if f3 == 3 { 8 } else { 4 }, value) {
            self.next_pc()
        } else {
            false
        }
    }
}

} // verus!
