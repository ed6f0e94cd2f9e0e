//! CSR instructions, environment calls, `mret` and the trap machinery.
use crate::fields::{
    extract_csr, extract_funct3, extract_rd, extract_rs1, extract_zimm, funct3_field, imm_i_field,
    instruction_word, rd_field, rs1_field, word_of, zimm_field,
};
use crate::machine::{
    csr_read_step, csr_write_step, mode_level, MachineMode, MachineState, Rv64SGEmulator,
    CAUSE_ECALL_FROM_M, CAUSE_ECALL_FROM_S, CAUSE_ECALL_FROM_U, CAUSE_ILLEGAL_INSTRUCTION,
    M_CAUSE, M_EDELEG, M_EPC, M_STATUS, M_STATUS_MASK, M_TVEC,
};
use vstd::prelude::*;

verus! {

/// The new CSR value of a CSR instruction from the old value `o`: swap (`csrrw`), set
/// bits (`csrrs`), swap with the immediate (`csrrwi`), clear immediate bits (`csrrci`).
pub open spec fn csr_new_value(f3: u64, o: u64, src: u64, zimm: u64) -> u64 {
    if f3 == 1 {
        src
    } else if f3 == 2 {
        o | src
    } else if f3 == 5 {
        zimm
    } else {
        o & !zimm
    }
}

/// Whether a CSR instruction writes its CSR: `csrrs` with `rs1 = x0` and `csrrci` with a
/// zero immediate only read.
pub open spec fn csr_writes(f3: u64, rs1: u64, zimm: u64) -> bool {
    !(f3 == 2 && rs1 == 0) && !(f3 == 7 && zimm == 0)
}

/// `csrrw csrrs csrrwi csrrci`: read the old value, write the new one, old value to `rd`.
pub open spec fn csr_semantics(s: MachineState, w: u32) -> (MachineState, bool) {
    let f3 = funct3_field(w) as u64;
    let c = imm_i_field(w) as u64;
    let zimm = zimm_field(w) as u64;
    if !(f3 == 1 || f3 == 2 || f3 == 5 || f3 == 7) {
        s.raise(CAUSE_ILLEGAL_INSTRUCTION)
    } else {
        let (t, old) = csr_read_step(s, c);
        match old {
            None => (t, false),
            Some(o) => {
                let v = csr_new_value(f3, o, s.read_x(rs1_field(w) as int), zimm);
                let (u, ok) = if csr_writes(f3, rs1_field(w) as u64, zimm) {
                    csr_write_step(t, c, v)
                } else {
                    (t, true)
                };
                if ok {
                    u.write_x(rd_field(w) as int, o).next()
                } else {
                    (u, false)
                }
            },
        }
    }
}

/// The environment-call cause of a mode.
pub open spec fn ecall_cause(m: MachineMode) -> u64 {
    match m {
        MachineMode::U => CAUSE_ECALL_FROM_U,
        MachineMode::S => CAUSE_ECALL_FROM_S,
        MachineMode::M => CAUSE_ECALL_FROM_M,
    }
}

pub open spec fn mode_of_level(l: u64) -> MachineMode {
    if l == 0 {
        MachineMode::U
    } else if l == 1 {
        MachineMode::S
    } else {
        MachineMode::M
    }
}

/// `mstatus` after `mret`: MIE takes MPIE, MPIE is set, MPP becomes User.
pub open spec fn mret_status(ms: u64) -> u64 {
    ((((ms & 0xffff_ffff_ffff_fff7) | ((ms & 0x80) >> 4u64)) | 0x80) & 0xffff_ffff_ffff_e7ff)
}

/// The mode saved in MPP.
pub open spec fn saved_mode(ms: u64) -> u64 {
    (ms & 0x1800) >> 11u64
}

/// `mret`: back to the mode in MPP, at `mepc`.
pub open spec fn mret_semantics(s: MachineState) -> (MachineState, bool) {
    let (t, epc) = csr_read_step(s, M_EPC as u64);
    match epc {
        None => (t, false),
        Some(epc) => {
            let (t2, ms) = csr_read_step(t, M_STATUS as u64);
            match ms {
                None => (t2, false),
                Some(ms) => {
                    let mpp = saved_mode(ms);
                    if !(mpp == 0 || mpp == 1 || mpp == 3) {
                        t2.raise(CAUSE_ILLEGAL_INSTRUCTION)
                    } else {
                        let (t3, ok) = csr_write_step(t2, M_STATUS as u64, mret_status(ms));
                        if ok {
                            MachineState { mode: mode_of_level(mpp), ..t3 }.advance_to(epc)
                        } else {
                            (t3, false)
                        }
                    }
                },
            }
        },
    }
}

/// `SYSTEM`: `ecall`, `mret` and the CSR instructions.
pub open spec fn system_semantics(s: MachineState, w: u32) -> (MachineState, bool) {
    if funct3_field(w) == 0 {
        if w == 0x0000_0073 {
            s.raise(ecall_cause(s.mode))
        } else if w == 0x3020_0073 {
            mret_semantics(s)
        } else {
            s.raise(CAUSE_ILLEGAL_INSTRUCTION)
        }
    } else {
        csr_semantics(s, w)
    }
}

/// `mstatus` on a trap into Machine mode from `mode`: MPIE takes MIE, MIE is cleared,
/// MPP holds the mode the trap came from.
pub open spec fn trap_status(ms: u64, mode: MachineMode) -> u64 {
    let cleared = ms & 0xffff_ffff_ffff_e7ff;
    let moved = (cleared & 0xffff_ffff_ffff_ff77) | ((cleared & 0x8) << 4u64);
    (moved | (mode_level(mode) << 11u64)) & M_STATUS_MASK
}

/// Whether the cause in `mcause` is delegated to Supervisor mode.
pub open spec fn delegated(s: MachineState) -> bool {
    let cause = s.csrs[M_CAUSE as int];
    s.mode != MachineMode::M && cause < 64 && (s.csrs[M_EDELEG as int] >> cause) & 1 == 1
}

/// Trap entry for the synchronous exception recorded in `mcause`. Into Supervisor mode
/// where `medeleg` delegates the cause (from below Machine mode); otherwise into Machine
/// mode: `mepc = pc`, `mstatus` updated, `pc = mtvec & !3`.
pub open spec fn trap_semantics(s: MachineState) -> MachineState {
    if delegated(s) {
        MachineState { mode: MachineMode::S, ..s }
    } else {
        MachineState {
            mode: MachineMode::M,
            pc: s.csrs[M_TVEC as int] & 0xffff_ffff_ffff_fffc,
            csrs: s.csrs.update(M_EPC as int, s.pc & 0xffff_ffff_ffff_fffe).update(
                M_STATUS as int,
                trap_status(s.csrs[M_STATUS as int], s.mode),
            ),
            ..s
        }
    }
}

impl Rv64SGEmulator {
    /// `csrrw csrrs csrrwi csrrci`.
    pub fn exec_csr(&mut self, instruction: &Vec<u8>) -> (ok: bool)
        requires
            instruction@.len() == 4,
        ensures
            (final(self)@, ok) == csr_semantics(old(self)@, word_of(instruction@)),
    {
        let f3 = extract_funct3(instruction) as u64;
        if !(f3 == 1 || f3 == 2 || f3 == 5 || f3 == 7) {
            return self.set_exception_cause(CAUSE_ILLEGAL_INSTRUCTION);
        }
        let rd = extract_rd(instruction);
        let rs1 = extract_rs1(instruction);
        let zimm = extract_zimm(instruction);
        let rv_csr = extract_csr(instruction);
        let src = self.xreg(rs1);
        let o = match self.read_csr(rv_csr) {
            None => return false,
            Some(o) => o,
        };
        let v = if f3 == 1 {
            src
        } else if f3 == 2 {
            o | src
        } else if f3 == 5 {
            zimm
        } else {
            o & !zimm
        };
        if !(f3 == 2 && rs1 == 0) && !(f3 == 7 && zimm == 0) {
            if !self.write_csr(rv_csr, v) {
                return false;
            }
        }
        self.set_xreg(rd, o);
        self.next_pc()
    }

    /// `ecall`: an environment call from the current mode.

    /// `ecall`: an environment call from the current mode.
    pub fn ecall(&mut self) -> (ok: bool)
        ensures
            (final(self)@, ok) == old(self)@.raise(ecall_cause(old(self)@.mode)),
    {
        let cause = match self.mode {
            MachineMode::U => CAUSE_ECALL_FROM_U,
            MachineMode::S => CAUSE_ECALL_FROM_S,
            MachineMode::M => CAUSE_ECALL_FROM_M,
        };
        self.set_exception_cause(cause)
    }

    /// `mret`: return from a Machine-mode trap.

    /// `mret`: return from a Machine-mode trap.
    pub fn mret(&mut self) -> (ok: bool)
        ensures
            (final(self)@, ok) == mret_semantics(old(self)@),
    {
        let pc = match self.read_csr(M_EPC) {
            None => return false,
            Some(v) => v,
        };
        let mstatus = match self.read_csr(M_STATUS) {
            None => return false,
            Some(v) => v,
        };
        let mpp = (mstatus & 0x1800) >> 11u64;
        let mode = match MachineMode::from_u64(mpp) {
            None => return self.set_exception_cause(CAUSE_ILLEGAL_INSTRUCTION),
            Some(m) => m,
        };
        let ms = (((mstatus & 0xffff_ffff_ffff_fff7) | ((mstatus & 0x80) >> 4u64)) | 0x80)
            & 0xffff_ffff_ffff_e7ff;
        if !self.write_csr(M_STATUS, ms) {
            return false;
        }
        self.mode = mode;
        self.progress_pc(pc)
    }

    /// `SYSTEM`: `ecall`, `mret` and the CSR instructions.

    /// `SYSTEM`: `ecall`, `mret` and the CSR instructions.
    pub fn exec_system(&mut self, instruction: &Vec<u8>) -> (ok: bool)
        requires
            instruction@.len() == 4,
        ensures
            (final(self)@, ok) == system_semantics(old(self)@, word_of(instruction@)),
    {
        if extract_funct3(instruction) == 0 {
            let w = instruction_word(instruction);
            if w == 0x0000_0073 {
                self.ecall()
            } else if w == 0x3020_0073 {
                self.mret()
            } else {
                self.set_exception_cause(CAUSE_ILLEGAL_INSTRUCTION)
            }
        } else {
            self.exec_csr(instruction)
        }
    }

    /// Enters the trap handler for the exception recorded in `mcause`.
    pub fn call_exception(&mut self)
        ensures
            final(self)@ == trap_semantics(old(self)@),
    {
        let cause = self.csrs[M_CAUSE];
        if self.mode != MachineMode::M && cause < 64 && (self.csrs[M_EDELEG] >> cause) & 1 == 1 {
            self.mode = MachineMode::S;
            return;
        }
        let current = self.mode;
        let cleared = self.csrs[M_STATUS] & 0xffff_ffff_ffff_e7ff;
        let moved = (cleared & 0xffff_ffff_ffff_ff77) | ((cleared & 0x8) << 4u64);
        let level = current.to_usize() as u64;
        self.csrs[M_EPC] = self.pc & 0xffff_ffff_ffff_fffe;
        self.csrs[M_STATUS] = (moved | (level << 11u64)) & M_STATUS_MASK;
        self.mode = MachineMode::M;
        self.pc = self.csrs[M_TVEC] & 0xffff_ffff_ffff_fffc;
    }
}

} // verus!
