//! Properties of the hart that hold of every state and every input.
use crate::alu::{div64, divu64, divuw, divw, op32_result, op_result, rem64, remu64, remuw, remw, w32};
use crate::atomic::sc_semantics;
use crate::fields::{
    funct3_field, funct7_field, is_boxed, opcode_field, lemma_and_le, lemma_shr_bounds, rd_field, rs1_field, rs2_field, rs3_field,
};
use crate::float::{boxed_result, fp_load_semantics, fp_semantics, is_fma_opcode, FpResult};
use crate::machine::{
    csr_update, csr_value, load_step, mode_level, over_memory, store_step, valid_width,
    MachineState, FCSR, FFLAGS, FRM, M_EDELEG, M_EDELEG_MASK, M_EPC, M_STATUS, M_STATUS_MASK,
    M_TVEC,
};
use crate::step::{fetch_word, step_semantics};
use crate::system::{delegated, mret_semantics, trap_semantics};
use vstd::prelude::*;

verus! {

/// Register 0 reads as zero after every step, and no step changes its cell.
pub proof fn lemma_x0_stays_zero(s: MachineState, res: FpResult)
    requires
        s.wf(),
    ensures
        step_semantics(s, res).read_x(0) == 0,
        step_semantics(s, res).x.len() == 32,
        step_semantics(s, res).x[0] == s.x[0],
{
    if let Some(w) = fetch_word(s) {
        lemma_exec_keeps_x0(s, w, res);
    }
}

/// The cells of the integer registers keep their number and cell 0 its value.
pub open spec fn keeps_x0(s: MachineState, t: MachineState) -> bool {
    t.x.len() == s.x.len() && t.x[0] == s.x[0]
}

proof fn lemma_fp_keeps_x0(s: MachineState, w: u32, res: FpResult)
    requires
        s.wf(),
    ensures
        keeps_x0(s, crate::float::fp_semantics(s, w, res).0),
{
    lemma_fields_bounded(w);
}

proof fn lemma_load_semantics_keeps_x0(s: MachineState, w: u32)
    requires
        s.wf(),
    ensures
        keeps_x0(s, crate::integer::load_semantics(s, w).0),
{
    lemma_fields_bounded(w);
}

proof fn lemma_fp_load_semantics_keeps_x0(s: MachineState, w: u32)
    requires
        s.wf(),
    ensures
        keeps_x0(s, crate::float::fp_load_semantics(s, w).0),
{
    lemma_fields_bounded(w);
}

proof fn lemma_fence_semantics_keeps_x0(s: MachineState, w: u32)
    requires
        s.wf(),
    ensures
        keeps_x0(s, crate::integer::fence_semantics(s, w).0),
{
    lemma_fields_bounded(w);
}

proof fn lemma_op_imm_semantics_keeps_x0(s: MachineState, w: u32)
    requires
        s.wf(),
    ensures
        keeps_x0(s, crate::integer::op_imm_semantics(s, w).0),
{
    lemma_fields_bounded(w);
}

proof fn lemma_auipc_semantics_keeps_x0(s: MachineState, w: u32)
    requires
        s.wf(),
    ensures
        keeps_x0(s, crate::integer::auipc_semantics(s, w).0),
{
    lemma_fields_bounded(w);
}

proof fn lemma_op_imm32_semantics_keeps_x0(s: MachineState, w: u32)
    requires
        s.wf(),
    ensures
        keeps_x0(s, crate::integer::op_imm32_semantics(s, w).0),
{
    lemma_fields_bounded(w);
}

proof fn lemma_store_semantics_keeps_x0(s: MachineState, w: u32)
    requires
        s.wf(),
    ensures
        keeps_x0(s, crate::integer::store_semantics(s, w).0),
{
    lemma_fields_bounded(w);
}

proof fn lemma_fp_store_semantics_keeps_x0(s: MachineState, w: u32)
    requires
        s.wf(),
    ensures
        keeps_x0(s, crate::float::fp_store_semantics(s, w).0),
{
    lemma_fields_bounded(w);
}

proof fn lemma_atomic_semantics_keeps_x0(s: MachineState, w: u32)
    requires
        s.wf(),
    ensures
        keeps_x0(s, crate::atomic::atomic_semantics(s, w).0),
{
    lemma_fields_bounded(w);
}

proof fn lemma_op_semantics_keeps_x0(s: MachineState, w: u32)
    requires
        s.wf(),
    ensures
        keeps_x0(s, crate::integer::op_semantics(s, w).0),
{
    lemma_fields_bounded(w);
}

proof fn lemma_lui_semantics_keeps_x0(s: MachineState, w: u32)
    requires
        s.wf(),
    ensures
        keeps_x0(s, crate::integer::lui_semantics(s, w).0),
{
    lemma_fields_bounded(w);
}

proof fn lemma_op32_semantics_keeps_x0(s: MachineState, w: u32)
    requires
        s.wf(),
    ensures
        keeps_x0(s, crate::integer::op32_semantics(s, w).0),
{
    lemma_fields_bounded(w);
}

proof fn lemma_branch_semantics_keeps_x0(s: MachineState, w: u32)
    requires
        s.wf(),
    ensures
        keeps_x0(s, crate::integer::branch_semantics(s, w).0),
{
    lemma_fields_bounded(w);
}

proof fn lemma_jalr_semantics_keeps_x0(s: MachineState, w: u32)
    requires
        s.wf(),
    ensures
        keeps_x0(s, crate::integer::jalr_semantics(s, w).0),
{
    lemma_fields_bounded(w);
}

proof fn lemma_jal_semantics_keeps_x0(s: MachineState, w: u32)
    requires
        s.wf(),
    ensures
        keeps_x0(s, crate::integer::jal_semantics(s, w).0),
{
    lemma_fields_bounded(w);
}

proof fn lemma_system_semantics_keeps_x0(s: MachineState, w: u32)
    requires
        s.wf(),
    ensures
        keeps_x0(s, crate::system::system_semantics(s, w).0),
{
    lemma_fields_bounded(w);
}

proof fn lemma_exec_keeps_x0(s: MachineState, w: u32, res: FpResult)
    requires
        s.wf(),
    ensures
        keeps_x0(s, crate::step::exec_semantics(s, w, res).0),
{
    lemma_fp_keeps_x0(s, w, res);
    lemma_load_semantics_keeps_x0(s, w);
    lemma_fp_load_semantics_keeps_x0(s, w);
    lemma_fence_semantics_keeps_x0(s, w);
    lemma_op_imm_semantics_keeps_x0(s, w);
    lemma_auipc_semantics_keeps_x0(s, w);
    lemma_op_imm32_semantics_keeps_x0(s, w);
    lemma_store_semantics_keeps_x0(s, w);
    lemma_fp_store_semantics_keeps_x0(s, w);
    lemma_atomic_semantics_keeps_x0(s, w);
    lemma_op_semantics_keeps_x0(s, w);
    lemma_lui_semantics_keeps_x0(s, w);
    lemma_op32_semantics_keeps_x0(s, w);
    lemma_branch_semantics_keeps_x0(s, w);
    lemma_jalr_semantics_keeps_x0(s, w);
    lemma_jal_semantics_keeps_x0(s, w);
    lemma_system_semantics_keeps_x0(s, w);
}


/// The register fields of an instruction word name one of the 32 registers.
pub proof fn lemma_fields_bounded(w: u32)
    ensures
        rd_field(w) < 32,
        rs1_field(w) < 32,
        rs2_field(w) < 32,
        rs3_field(w) < 32,
{
    lemma_and_le(w >> 7u32, 0x1f);
    lemma_and_le(w >> 15u32, 0x1f);
    lemma_and_le(w >> 20u32, 0x1f);
    lemma_shr_bounds(w);
}

/// The bytes that a store of `width` bytes keeps of a value.
pub open spec fn width_mask(width: u64) -> u64 {
    if width == 1 {
        0xff
    } else if width == 2 {
        0xffff
    } else if width == 4 {
        0xffff_ffff
    } else {
        u64::MAX
    }
}

/// A load of `width` bytes right after a store of `v` at the same address returns `v`
/// masked to `width` bytes.
pub proof fn lemma_store_then_load(s: MachineState, addr: u64, width: u64, v: u64)
    requires
        valid_width(width),
        !over_memory(s.memory.len(), addr, width),
    ensures
        store_step(s, addr, width, v).1,
        load_step(store_step(s, addr, width, v).0, addr, width).1 == Some(v & width_mask(width)),
{
    assert((v as u8) as u64 == v & 0xff) by (bit_vector);
    assert(((v as u8) as u64) | ((((v >> 8u64) as u8) as u64) << 8u64) == v & 0xffff) by (bit_vector);
    assert(((v as u8) as u64) | ((((v >> 8u64) as u8) as u64) << 8u64) | ((((v >> 16u64) as u8) as u64)
        << 16u64) | ((((v >> 24u64) as u8) as u64) << 24u64) == v & 0xffff_ffff) by (bit_vector);
    assert(((v as u8) as u64) | ((((v >> 8u64) as u8) as u64) << 8u64) | ((((v >> 16u64) as u8) as u64)
        << 16u64) | ((((v >> 24u64) as u8) as u64) << 24u64) | ((((v >> 32u64) as u8) as u64)
        << 32u64) | ((((v >> 40u64) as u8) as u64) << 40u64) | ((((v >> 48u64) as u8) as u64)
        << 48u64) | ((((v >> 56u64) as u8) as u64) << 56u64) == v & u64::MAX) by (bit_vector);
}

/// Every single-precision result written to a float register has bits 63..32 all ones.
pub proof fn lemma_single_results_boxed(v: u64)
    ensures
        is_boxed(boxed_result(v, false)),
{
    assert((v | 0xffff_ffff_0000_0000u64) >> 32u64 == 0xffff_ffff) by (bit_vector);
}

/// An `mret` in Machine mode whose `mepc` and `mstatus` are those that a trap into Machine
/// mode left returns to the program counter and the mode of the trapping instruction
/// (with bit 0 of the counter cleared, as `mepc` holds no odd address).
pub proof fn lemma_mret_after_trap(s: MachineState, u: MachineState)
    requires
        s.wf(),
        u.wf(),
        !delegated(s),
        u.mode == crate::machine::MachineMode::M,
        u.csrs[M_EPC as int] == trap_semantics(s).csrs[M_EPC as int],
        u.csrs[M_STATUS as int] == trap_semantics(s).csrs[M_STATUS as int],
        !over_memory(u.memory.len(), s.pc & 0xffff_ffff_ffff_fffe, 4),
    ensures
        mret_semantics(u).1,
        mret_semantics(u).0.pc == s.pc & 0xffff_ffff_ffff_fffe,
        mret_semantics(u).0.mode == s.mode,
{
    assert((0x341u64 >> 8u64) & 3 == 3 && 0x341u64 >> 10u64 == 0) by (bit_vector);
    assert((0x300u64 >> 8u64) & 3 == 3 && 0x300u64 >> 10u64 == 0) by (bit_vector);
    let ms = s.csrs[M_STATUS as int];
    let l = mode_level(s.mode);
    assert(l == 0 || l == 1 || l == 3);
    assert(((((((ms & 0xffff_ffff_ffff_e7ff) & 0xffff_ffff_ffff_ff77) | (((ms & 0xffff_ffff_ffff_e7ff)
        & 0x8) << 4u64)) | (l << 11u64)) & M_STATUS_MASK) & 0x1800) >> 11u64 == l) by (bit_vector)
        requires
            l == 0 || l == 1 || l == 3,
    ;
}

/// A store-conditional with no reservation writes a non-zero value to `rd` and leaves
/// memory unchanged; every store-conditional clears the reservation.
pub proof fn lemma_sc_without_reservation(s: MachineState, w: u32)
    requires
        s.wf(),
        s.reservation is None,
        rd_field(w) != 0,
    ensures
        sc_semantics(s, w).0.x[rd_field(w) as int] != 0,
        sc_semantics(s, w).0.memory == s.memory,
{
    lemma_fields_bounded(w);
}

/// The same over a whole step: a hart with no reservation that executes `sc.w` ends with
/// a non-zero `rd` and unchanged memory, whether or not the step then traps.
pub proof fn lemma_sc_step_without_reservation(s: MachineState, res: FpResult)
    requires
        s.wf(),
        s.reservation is None,
        fetch_word(s) is Some,
        opcode_field(fetch_word(s).unwrap()) == 0x2f,
        funct3_field(fetch_word(s).unwrap()) == 2,
        fetch_word(s).unwrap() >> 27u32 == 3,
        rd_field(fetch_word(s).unwrap()) != 0,
    ensures
        step_semantics(s, res).x[rd_field(fetch_word(s).unwrap()) as int] != 0,
        step_semantics(s, res).memory == s.memory,
{
    let w = fetch_word(s).unwrap();
    lemma_sc_without_reservation(s, w);
    assert(opcode_field(w) == 0x2f);
}

pub proof fn lemma_sc_clears_reservation(s: MachineState, w: u32)
    ensures
        sc_semantics(s, w).0.reservation is None,
{
}

/// Every float-register cell that a single-precision instruction of `OP-FP` or of the
/// fused multiply-add opcodes changes is NaN-boxed: bits 63..32 are all ones.
pub proof fn lemma_single_precision_writes_boxed(s: MachineState, w: u32, res: FpResult)
    requires
        s.wf(),
        opcode_field(w) == 0x53 || is_fma_opcode(opcode_field(w)),
        funct7_field(w) & 1 == 0,
    ensures
        forall|i: int|
            0 <= i < 32 && fp_semantics(s, w, res).0.f[i] != s.f[i] ==> is_boxed(
                #[trigger] fp_semantics(s, w, res).0.f[i],
            ),
{
    lemma_fields_bounded(w);
    let f7 = funct7_field(w);
    assert(f7 & 1 == 0 ==> f7 & 3 != 1 && f7 != 0x21) by (bit_vector);
    lemma_single_results_boxed_all();
}

/// `flw` NaN-boxes the word it loads.
pub proof fn lemma_flw_writes_boxed(s: MachineState, w: u32)
    requires
        s.wf(),
        funct3_field(w) == 2,
        fp_load_semantics(s, w).1,
    ensures
        is_boxed(fp_load_semantics(s, w).0.f[rd_field(w) as int]),
{
    lemma_fields_bounded(w);
    lemma_single_results_boxed_all();
}

pub proof fn lemma_single_results_boxed_all()
    ensures
        forall|v: u64| is_boxed(#[trigger] boxed_result(v, false)),
{
    assert forall|v: u64| is_boxed(#[trigger] boxed_result(v, false)) by {
        lemma_single_results_boxed(v);
    }
}

/// The bits of a written value that a CSR keeps.
pub open spec fn csr_write_mask(c: int) -> u64 {
    if c == FFLAGS {
        0x1f
    } else if c == FRM {
        0x7
    } else if c == FCSR {
        0xff
    } else if c == M_STATUS {
        M_STATUS_MASK
    } else if c == M_EDELEG {
        M_EDELEG_MASK
    } else if c == M_EPC {
        0xffff_ffff_ffff_fffe
    } else {
        u64::MAX
    }
}

/// Writing a CSR and reading it back gives the written value under the CSR's write mask
/// (`mtvec` ignores a value that selects a reserved mode, so such values are left out).
pub proof fn lemma_csr_write_then_read(csrs: Seq<u64>, c: int, v: u64)
    requires
        csrs.len() == 4096,
        0 <= c < 4096,
        c == M_TVEC ==> v & 3 <= 1,
    ensures
        csr_value(csr_update(csrs, c, v), c) == v & csr_write_mask(c),
{
    let old = csrs[FCSR as int];
    assert((((old & 0x1f) | ((v & 0x7) << 5u64)) & 0xe0) >> 5u64 == v & 0x7) by (bit_vector);
    assert(((old & 0xe0) | (v & 0x1f)) & 0x1f == v & 0x1f) by (bit_vector);
    assert((v & 0xff) == v & 0xff);
    assert(v & u64::MAX == v) by (bit_vector);
}

/// Division by zero gives all ones and remainder by zero the dividend (for the word forms,
/// the dividend's low word sign-extended); the most negative value divided by −1 gives
/// itself, with remainder zero.
pub proof fn lemma_division_boundaries(a: u64)
    ensures
        div64(a, 0) == u64::MAX,
        divu64(a, 0) == u64::MAX,
        rem64(a, 0) == a,
        remu64(a, 0) == a,
        divw(a, 0) == u64::MAX,
        divuw(a, 0) == u64::MAX,
        remw(a, 0) == w32(a),
        remuw(a, 0) == w32(a),
        div64(0x8000_0000_0000_0000, u64::MAX) == 0x8000_0000_0000_0000,
        rem64(0x8000_0000_0000_0000, u64::MAX) == 0,
        divw(0x8000_0000, 0xffff_ffff) == 0xffff_ffff_8000_0000,
        remw(0x8000_0000, 0xffff_ffff) == 0,
{
    assert(0u64 & 0xffff_ffff == 0) by (bit_vector);
    assert(0x8000_0000u64 & 0xffff_ffff == 0x8000_0000) by (bit_vector);
    assert(0xffff_ffffu64 & 0xffff_ffff == 0xffff_ffff) by (bit_vector);
    assert(crate::fields::sext(0x8000_0000, 32) == 0xffff_ffff_8000_0000) by (bit_vector);
    assert(crate::fields::sext(0, 32) == 0) by (bit_vector);
}

/// Shifts read only the low 6 bits of the amount (low 5 bits in the word forms).
pub proof fn lemma_shift_amount_masked(a: u64, b: u64)
    ensures
        op_result(0, 1, a, b) == op_result(0, 1, a, b & 0x3f),
        op_result(0, 5, a, b) == op_result(0, 5, a, b & 0x3f),
        op_result(0x20, 5, a, b) == op_result(0x20, 5, a, b & 0x3f),
        op32_result(0, 1, a, b) == op32_result(0, 1, a, b & 0x1f),
        op32_result(0, 5, a, b) == op32_result(0, 5, a, b & 0x1f),
        op32_result(0x20, 5, a, b) == op32_result(0x20, 5, a, b & 0x1f),
{
    assert((b & 0x3f) & 0x3f == b & 0x3f) by (bit_vector);
    assert((b & 0x1f) & 0x1f == b & 0x1f) by (bit_vector);
}

} // verus!
