//! Execution of the base integer instructions and of the multiply/divide extension.
use crate::alu::{
    compute_op, compute_op32, compute_op_imm, compute_op_imm32, op32_result, op_imm32_result,
    op_imm_result, op_result, wadd,
};
use crate::fields::{
    extend_sign_12bit, extend_sign_13bit, extend_sign_16bit, extend_sign_21bit, extend_sign_32bit,
    extend_sign_8bit, extract_funct3, extract_funct7, extract_imm_11_0, extract_imm_31_12,
    extract_offset_11_0, extract_offset_11_5_4_0, extract_offset_12_10_5_4_1_11,
    extract_offset_20_10_1_11_19_12, extract_rd, extract_rs1, extract_rs2, extract_shamt,
    funct3_field, funct7_field, imm_b_field, imm_i_field, imm_j_field, imm_s_field, imm_u_field,
    instruction_word, rd_field, rs1_field, rs2_field, sext, shamt_field, word_of,
};
use crate::machine::{load_step, store_step, MachineState, Rv64SGEmulator, CAUSE_ILLEGAL_INSTRUCTION};
use crate::alu::signed;
use vstd::prelude::*;

verus! {

pub open spec fn rd_of(w: u32) -> int {
    rd_field(w) as int
}

pub open spec fn rs1_of(w: u32) -> int {
    rs1_field(w) as int
}

pub open spec fn rs2_of(w: u32) -> int {
    rs2_field(w) as int
}

/// `OP`: register-register arithmetic, logic, shifts, compares, multiply and divide.
pub open spec fn op_semantics(s: MachineState, w: u32) -> (MachineState, bool) {
    match op_result(
        funct7_field(w) as u64,
        funct3_field(w) as u64,
        s.read_x(rs1_of(w)),
        s.read_x(rs2_of(w)),
    ) {
        None => s.raise(CAUSE_ILLEGAL_INSTRUCTION),
        Some(v) => s.write_x(rd_of(w), v).next(),
    }
}

/// `OP-32`: the 32-bit register-register forms.
pub open spec fn op32_semantics(s: MachineState, w: u32) -> (MachineState, bool) {
    match op32_result(
        funct7_field(w) as u64,
        funct3_field(w) as u64,
        s.read_x(rs1_of(w)),
        s.read_x(rs2_of(w)),
    ) {
        None => s.raise(CAUSE_ILLEGAL_INSTRUCTION),
        Some(v) => s.write_x(rd_of(w), v).next(),
    }
}

/// `OP-IMM`: register-immediate arithmetic, logic, shifts and compares.
pub open spec fn op_imm_semantics(s: MachineState, w: u32) -> (MachineState, bool) {
    match op_imm_result(
        funct3_field(w) as u64,
        (w >> 26u32) as u64,
        sext(imm_i_field(w) as u64, 12),
        shamt_field(w) as u64,
        s.read_x(rs1_of(w)),
    ) {
        None => s.raise(CAUSE_ILLEGAL_INSTRUCTION),
        Some(v) => s.write_x(rd_of(w), v).next(),
    }
}

/// `OP-IMM-32`: the 32-bit register-immediate forms.
pub open spec fn op_imm32_semantics(s: MachineState, w: u32) -> (MachineState, bool) {
    match op_imm32_result(
        funct3_field(w) as u64,
        funct7_field(w) as u64,
        sext(imm_i_field(w) as u64, 12),
        rs2_field(w) as u64,
        s.read_x(rs1_of(w)),
    ) {
        None => s.raise(CAUSE_ILLEGAL_INSTRUCTION),
        Some(v) => s.write_x(rd_of(w), v).next(),
    }
}

/// The width in bytes of a load by `funct3`.
pub open spec fn load_width(f3: u64) -> u64 {
    if f3 == 0 || f3 == 4 {
        1
    } else if f3 == 1 || f3 == 5 {
        2
    } else if f3 == 2 || f3 == 6 {
        4
    } else {
        8
    }
}

/// The register value of a load by `funct3`: sign-extended for 0..2, zero-extended otherwise.
pub open spec fn load_extend(f3: u64, v: u64) -> u64 {
    if f3 == 0 {
        sext(v, 8)
    } else if f3 == 1 {
        sext(v, 16)
    } else if f3 == 2 {
        sext(v, 32)
    } else {
        v
    }
}

/// The effective address of a load or of a jump through a register.
pub open spec fn i_address(s: MachineState, w: u32) -> u64 {
    wadd(s.read_x(rs1_of(w)), sext(imm_i_field(w) as u64, 12))
}

/// The effective address of a store.
pub open spec fn s_address(s: MachineState, w: u32) -> u64 {
    wadd(s.read_x(rs1_of(w)), sext(imm_s_field(w) as u64, 12))
}

/// `LOAD`: `lb lh lw ld lbu lhu lwu`.
pub open spec fn load_semantics(s: MachineState, w: u32) -> (MachineState, bool) {
    let f3 = funct3_field(w) as u64;
    if f3 == 7 {
        s.raise(CAUSE_ILLEGAL_INSTRUCTION)
    } else {
        let (t, v) = load_step(s, i_address(s, w), load_width(f3));
        match v {
            None => (t, false),
            Some(v) => t.write_x(rd_of(w), load_extend(f3, v)).next(),
        }
    }
}

/// `STORE`: `sb sh sw sd`.
pub open spec fn store_semantics(s: MachineState, w: u32) -> (MachineState, bool) {
    let f3 = funct3_field(w) as u64;
    if f3 > 3 {
        s.raise(CAUSE_ILLEGAL_INSTRUCTION)
    } else {
        let (t, ok) = store_step(s, s_address(s, w), load_width(f3), s.read_x(rs2_of(w)));
        if ok {
            t.next()
        } else {
            (t, false)
        }
    }
}

/// Whether a branch with this `funct3` is taken.
pub open spec fn branch_taken(f3: u64, a: u64, b: u64) -> bool {
    if f3 == 0 {
        a == b
    } else if f3 == 1 {
        a != b
    } else if f3 == 4 {
        signed(a) < signed(b)
    } else if f3 == 5 {
        signed(a) >= signed(b)
    } else if f3 == 6 {
        a < b
    } else {
        a >= b
    }
}

/// `BRANCH`: to `pc + offset` when taken, else to `pc + 4`.
pub open spec fn branch_semantics(s: MachineState, w: u32) -> (MachineState, bool) {
    let f3 = funct3_field(w) as u64;
    if f3 == 2 || f3 == 3 {
        s.raise(CAUSE_ILLEGAL_INSTRUCTION)
    } else if branch_taken(f3, s.read_x(rs1_of(w)), s.read_x(rs2_of(w))) {
        s.advance_to(wadd(s.pc, sext(imm_b_field(w) as u64, 13)))
    } else {
        s.next()
    }
}

/// `JAL`: `rd = pc + 4`, then to `pc + offset`.
pub open spec fn jal_semantics(s: MachineState, w: u32) -> (MachineState, bool) {
    s.write_x(rd_of(w), wadd(s.pc, 4)).advance_to(wadd(s.pc, sext(imm_j_field(w) as u64, 21)))
}

/// `JALR`: to `(rs1 + offset)` with bit 0 cleared, then `rd = pc + 4`.
pub open spec fn jalr_semantics(s: MachineState, w: u32) -> (MachineState, bool) {
    if funct3_field(w) != 0 {
        s.raise(CAUSE_ILLEGAL_INSTRUCTION)
    } else {
        let (t, ok) = s.advance_to(i_address(s, w) & 0xffff_ffff_ffff_fffe);
        if ok {
            (t.write_x(rd_of(w), wadd(s.pc, 4)), true)
        } else {
            (t, false)
        }
    }
}

/// `LUI`: `rd` = the U-immediate, sign-extended from 32 bits.
pub open spec fn lui_semantics(s: MachineState, w: u32) -> (MachineState, bool) {
    s.write_x(rd_of(w), sext(imm_u_field(w) as u64, 32)).next()
}

/// `AUIPC`: `rd = pc +` the U-immediate.
pub open spec fn auipc_semantics(s: MachineState, w: u32) -> (MachineState, bool) {
    s.write_x(rd_of(w), wadd(s.pc, sext(imm_u_field(w) as u64, 32))).next()
}

/// `MISC-MEM`: `fence` and `fence.i` do nothing here.
pub open spec fn fence_semantics(s: MachineState, w: u32) -> (MachineState, bool) {
    if funct3_field(w) <= 1 {
        s.next()
    } else {
        s.raise(CAUSE_ILLEGAL_INSTRUCTION)
    }
}

impl Rv64SGEmulator {
    fn write_result(&mut self, rd: usize, v: Option<u64>) -> (ok: bool)
        requires
            rd < 32,
        ensures
            (final(self)@, ok) == (match v {
                None => old(self)@.raise(CAUSE_ILLEGAL_INSTRUCTION),
                Some(v) => old(self)@.write_x(rd as int, v).next(),
            }),
    {
        match v {
            None => self.set_exception_cause(CAUSE_ILLEGAL_INSTRUCTION),
            Some(v) => {
                self.set_xreg(rd, v);
                self.next_pc()
            },
        }
    }

    /// `OP`: register-register integer and multiply/divide instructions.

    /// `OP`: register-register integer and multiply/divide instructions.
    pub fn exec_op(&mut self, instruction: &Vec<u8>) -> (ok: bool)
        requires
            instruction@.len() == 4,
        ensures
            (final(self)@, ok) == op_semantics(old(self)@, word_of(instruction@)),
    {
        let rd = extract_rd(instruction);
        let a = self.xreg(extract_rs1(instruction));
        let b = self.xreg(extract_rs2(instruction));
        let v = compute_op(extract_funct7(instruction) as u64, extract_funct3(instruction) as u64, a, b);
        self.write_result(rd, v)
    }

    /// `OP-32`: the 32-bit register-register forms.

    /// `OP-32`: the 32-bit register-register forms.
    pub fn exec_op32(&mut self, instruction: &Vec<u8>) -> (ok: bool)
        requires
            instruction@.len() == 4,
        ensures
            (final(self)@, ok) == op32_semantics(old(self)@, word_of(instruction@)),
    {
        let rd = extract_rd(instruction);
        let a = self.xreg(extract_rs1(instruction));
        let b = self.xreg(extract_rs2(instruction));
        let v = compute_op32(extract_funct7(instruction) as u64, extract_funct3(instruction) as u64, a, b);
        self.write_result(rd, v)
    }

    /// `OP-IMM`: register-immediate instructions.

    /// `OP-IMM`: register-immediate instructions.
    pub fn exec_op_imm(&mut self, instruction: &Vec<u8>) -> (ok: bool)
        requires
            instruction@.len() == 4,
        ensures
            (final(self)@, ok) == op_imm_semantics(old(self)@, word_of(instruction@)),
    {
        let rd = extract_rd(instruction);
        let a = self.xreg(extract_rs1(instruction));
        let imm = extend_sign_12bit(extract_imm_11_0(instruction));
        let top6 = (instruction_word(instruction) >> 26u32) as u64;
        let v = compute_op_imm(extract_funct3(instruction) as u64, top6, imm, extract_shamt(instruction), a);
        self.write_result(rd, v)
    }

    /// `OP-IMM-32`: the 32-bit register-immediate forms.

    /// `OP-IMM-32`: the 32-bit register-immediate forms.
    pub fn exec_op_imm32(&mut self, instruction: &Vec<u8>) -> (ok: bool)
        requires
            instruction@.len() == 4,
        ensures
            (final(self)@, ok) == op_imm32_semantics(old(self)@, word_of(instruction@)),
    {
        let rd = extract_rd(instruction);
        let a = self.xreg(extract_rs1(instruction));
        let imm = extend_sign_12bit(extract_imm_11_0(instruction));
        let shamt = extract_rs2(instruction) as u64;
        let v = compute_op_imm32(extract_funct3(instruction) as u64, extract_funct7(instruction) as u64, imm, shamt, a);
        self.write_result(rd, v)
    }

    /// `LOAD`: integer loads.

    /// `LOAD`: integer loads.
    pub fn exec_load(&mut self, instruction: &Vec<u8>) -> (ok: bool)
        requires
            instruction@.len() == 4,
        ensures
            (final(self)@, ok) == load_semantics(old(self)@, word_of(instruction@)),
    {
        let f3 = extract_funct3(instruction) as u64;
        if f3 == 7 {
            return self.set_exception_cause(CAUSE_ILLEGAL_INSTRUCTION);
        }
        let rd = extract_rd(instruction);
        let offset = extend_sign_12bit(extract_offset_11_0(instruction));
        let addr = self.xreg(extract_rs1(instruction)).wrapping_add(offset);
        let width: u64 = if f3 == 0 || f3 == 4 {
            1
        } else if f3 == 1 || f3 == 5 {
            2
        } else if f3 == 2 || f3 == 6 {
            4
        } else {
            8
        };
        match self.load(addr, width) {
            None => false,
            Some(v) => {
                let value = if f3 == 0 {
                    extend_sign_8bit(v)
                } else if f3 == 1 {
                    extend_sign_16bit(v)
                } else if f3 == 2 {
                    extend_sign_32bit(v)
                } else {
                    v
                };
                self.set_xreg(rd, value);
                self.next_pc()
            },
        }
    }

    /// `STORE`: integer stores.

    /// `STORE`: integer stores.
    pub fn exec_store(&mut self, instruction: &Vec<u8>) -> (ok: bool)
        requires
            instruction@.len() == 4,
        ensures
            (final(self)@, ok) == store_semantics(old(self)@, word_of(instruction@)),
    {
        let f3 = extract_funct3(instruction) as u64;
        if f3 > 3 {
            return self.set_exception_cause(CAUSE_ILLEGAL_INSTRUCTION);
        }
        let offset = extend_sign_12bit(extract_offset_11_5_4_0(instruction));
        let addr = self.xreg(extract_rs1(instruction)).wrapping_add(offset);
        let value = self.xreg(extract_rs2(instruction));
        let width: u64 = if f3 == 0 {
            1
        } else if f3 == 1 {
            2
        } else if f3 == 2 {
            4
        } else {
            8
        };
        if self.store(addr, width, value) {
            self.next_pc()
        } else {
            false
        }
    }

    /// `BRANCH`: conditional branches.

    /// `BRANCH`: conditional branches.
    pub fn exec_branch(&mut self, instruction: &Vec<u8>) -> (ok: bool)
        requires
            instruction@.len() == 4,
        ensures
            (final(self)@, ok) == branch_semantics(old(self)@, word_of(instruction@)),
    {
        let f3 = extract_funct3(instruction) as u64;
        if f3 == 2 || f3 == 3 {
            return self.set_exception_cause(CAUSE_ILLEGAL_INSTRUCTION);
        }
        let a = self.xreg(extract_rs1(instruction));
        let b = self.xreg(extract_rs2(instruction));
        let offset = extend_sign_13bit(extract_offset_12_10_5_4_1_11(instruction));
        let taken = if f3 == 0 {
            a == b
        } else if f3 == 1 {
            a != b
        } else if f3 == 4 {
            crate::alu::signed_less(a, b)
        } else if f3 == 5 {
            !crate::alu::signed_less(a, b)
        } else if f3 == 6 {
            a < b
        } else {
            a >= b
        };
        if taken {
            let target = self.pc.wrapping_add(offset);
            self.progress_pc(target)
        } else {
            self.next_pc()
        }
    }

    /// `JAL`: jump and link.

    /// `JAL`: jump and link.
    pub fn exec_jal(&mut self, instruction: &Vec<u8>) -> (ok: bool)
        requires
            instruction@.len() == 4,
        ensures
            (final(self)@, ok) == jal_semantics(old(self)@, word_of(instruction@)),
    {
        let rd = extract_rd(instruction);
        let offset = extend_sign_21bit(extract_offset_20_10_1_11_19_12(instruction));
        let pc = self.pc;
        self.set_xreg(rd, pc.wrapping_add(4));
        self.progress_pc(pc.wrapping_add(offset))
    }

    /// `JALR`: jump and link through a register.

    /// `JALR`: jump and link through a register.
    pub fn exec_jalr(&mut self, instruction: &Vec<u8>) -> (ok: bool)
        requires
            instruction@.len() == 4,
        ensures
            (final(self)@, ok) == jalr_semantics(old(self)@, word_of(instruction@)),
    {
        if extract_funct3(instruction) != 0 {
            return self.set_exception_cause(CAUSE_ILLEGAL_INSTRUCTION);
        }
        let rd = extract_rd(instruction);
        let offset = extend_sign_12bit(extract_offset_11_0(instruction));
        let link = self.pc.wrapping_add(4);
        let target = self.xreg(extract_rs1(instruction)).wrapping_add(offset) & 0xffff_ffff_ffff_fffe;
        if !self.progress_pc(target) {
            return false;
        }
        self.set_xreg(rd, link);
        true
    }

    /// `LUI`: load upper immediate.

    /// `LUI`: load upper immediate.
    pub fn exec_lui(&mut self, instruction: &Vec<u8>) -> (ok: bool)
        requires
            instruction@.len() == 4,
        ensures
            (final(self)@, ok) == lui_semantics(old(self)@, word_of(instruction@)),
    {
        let rd = extract_rd(instruction);
        self.set_xreg(rd, extend_sign_32bit(extract_imm_31_12(instruction)));
        self.next_pc()
    }

    /// `AUIPC`: add upper immediate to `pc`.

    /// `AUIPC`: add upper immediate to `pc`.
    pub fn exec_auipc(&mut self, instruction: &Vec<u8>) -> (ok: bool)
        requires
            instruction@.len() == 4,
        ensures
            (final(self)@, ok) == auipc_semantics(old(self)@, word_of(instruction@)),
    {
        let rd = extract_rd(instruction);
        let v = self.pc.wrapping_add(extend_sign_32bit(extract_imm_31_12(instruction)));
        self.set_xreg(rd, v);
        self.next_pc()
    }

    /// `MISC-MEM`: `fence` and `fence.i`.

    /// `MISC-MEM`: `fence` and `fence.i`.
    pub fn exec_fence(&mut self, instruction: &Vec<u8>) -> (ok: bool)
        requires
            instruction@.len() == 4,
        ensures
            (final(self)@, ok) == fence_semantics(old(self)@, word_of(instruction@)),
    {
        if extract_funct3(instruction) <= 1 {
            self.next_pc()
        } else {
            self.set_exception_cause(CAUSE_ILLEGAL_INSTRUCTION)
        }
    }
}

} // verus!
