//! Fetch, dispatch, trap entry: one step of the hart.
use crate::atomic::atomic_semantics;
use crate::fields::{opcode_field, word_of};
use crate::float::{
    fp_load_semantics, fp_request_of, fp_semantics, fp_store_semantics, FpRequest, FpResult,
};
use crate::integer::{
    auipc_semantics, branch_semantics, fence_semantics, jal_semantics, jalr_semantics,
    load_semantics, lui_semantics, op32_semantics, op_imm32_semantics, op_imm_semantics,
    op_semantics, store_semantics,
};
use crate::machine::{over_memory, MachineState, Rv64SGEmulator, CAUSE_ILLEGAL_INSTRUCTION, M_HARTID};
use crate::system::{system_semantics, trap_semantics};
use vstd::prelude::*;

verus! {

/// The instruction word at `pc`, where all four bytes lie in memory.
pub open spec fn fetch_word(s: MachineState) -> Option<u32> {
    if over_memory(s.memory.len(), s.pc, 4) {
        None
    } else {
        Some(word_of(s.memory.subrange(s.pc as int, s.pc + 4)))
    }
}

/// One instruction, dispatched on its opcode; the flag says whether it completed
/// (`false`: it trapped, with the cause in `mcause`).
pub open spec fn exec_semantics(s: MachineState, w: u32, res: FpResult) -> (MachineState, bool) {
    let op = opcode_field(w);
    if op == 0x03 {
        load_semantics(s, w)
    } else if op == 0x07 {
        fp_load_semantics(s, w)
    } else if op == 0x0f {
        fence_semantics(s, w)
    } else if op == 0x13 {
        op_imm_semantics(s, w)
    } else if op == 0x17 {
        auipc_semantics(s, w)
    } else if op == 0x1b {
        op_imm32_semantics(s, w)
    } else if op == 0x23 {
        store_semantics(s, w)
    } else if op == 0x27 {
        fp_store_semantics(s, w)
    } else if op == 0x2f {
        atomic_semantics(s, w)
    } else if op == 0x33 {
        op_semantics(s, w)
    } else if op == 0x37 {
        lui_semantics(s, w)
    } else if op == 0x3b {
        op32_semantics(s, w)
    } else if op == 0x43 || op == 0x47 || op == 0x4b || op == 0x4f || op == 0x53 {
        fp_semantics(s, w, res)
    } else if op == 0x63 {
        branch_semantics(s, w)
    } else if op == 0x67 {
        jalr_semantics(s, w)
    } else if op == 0x6f {
        jal_semantics(s, w)
    } else if op == 0x73 {
        system_semantics(s, w)
    } else {
        s.raise(CAUSE_ILLEGAL_INSTRUCTION)
    }
}

/// One step: fetch, execute, and enter the trap handler if the instruction trapped. An
/// instruction that cannot be fetched is an illegal instruction. `res` is the outcome of
/// the soft-float operation that [`pending_request`] names (unused where it names none).
pub open spec fn step_semantics(s: MachineState, res: FpResult) -> MachineState {
    match fetch_word(s) {
        None => trap_semantics(s.raise(CAUSE_ILLEGAL_INSTRUCTION).0),
        Some(w) => {
            let (t, ok) = exec_semantics(s, w, res);
            if ok {
                t
            } else {
                trap_semantics(t)
            }
        },
    }
}

/// The soft-float operation that the instruction at `pc` needs, if any.
pub open spec fn pending_request(s: MachineState) -> Option<FpRequest> {
    match fetch_word(s) {
        None => None,
        Some(w) => fp_request_of(s, w),
    }
}

impl Rv64SGEmulator {
    /// The four bytes at `pc`, if they lie in memory.
    pub fn fetch_instraction(&self) -> (r: Option<Vec<u8>>)
        ensures
            r is Some <==> fetch_word(self@) is Some,
            r matches Some(v) ==> v@.len() == 4 && word_of(v@) == fetch_word(self@).unwrap(),
    {
        if self.is_over_memory(self.pc, 4) {
            return None;
        }
        let len = self.memory.len();
        assert(self.pc + 4 <= len);
        let a = self.pc as usize;
        let mut instruction: Vec<u8> = Vec::with_capacity(4);
        instruction.push(self.memory[a]);
        instruction.push(self.memory[a + 1]);
        instruction.push(self.memory[a + 2]);
        instruction.push(self.memory[a + 3]);
        proof {
            let sub = self@.memory.subrange(self.pc as int, self.pc + 4);
            assert(instruction@ =~= sub);
        }
        Some(instruction)
    }

    /// Executes one decoded instruction.
    pub fn decode_and_exec(&mut self, instruction: &Vec<u8>, res: FpResult) -> (ok: bool)
        requires
            instruction@.len() == 4,
        ensures
            (final(self)@, ok) == exec_semantics(old(self)@, word_of(instruction@), res),
    {
        let op = crate::fields::instruction_word(instruction) & 0x7f;
        if op == 0x03 {
            self.exec_load(instruction)
        } else if op == 0x07 {
            self.exec_fp_load(instruction)
        } else if op == 0x0f {
            self.exec_fence(instruction)
        } else if op == 0x13 {
            self.exec_op_imm(instruction)
        } else if op == 0x17 {
            self.exec_auipc(instruction)
        } else if op == 0x1b {
            self.exec_op_imm32(instruction)
        } else if op == 0x23 {
            self.exec_store(instruction)
        } else if op == 0x27 {
            self.exec_fp_store(instruction)
        } else if op == 0x2f {
            self.exec_atomic(instruction)
        } else if op == 0x33 {
            self.exec_op(instruction)
        } else if op == 0x37 {
            self.exec_lui(instruction)
        } else if op == 0x3b {
            self.exec_op32(instruction)
        } else if op == 0x43 || op == 0x47 || op == 0x4b || op == 0x4f || op == 0x53 {
            self.exec_fp(instruction, res)
        } else if op == 0x63 {
            self.exec_branch(instruction)
        } else if op == 0x67 {
            self.exec_jalr(instruction)
        } else if op == 0x6f {
            self.exec_jal(instruction)
        } else if op == 0x73 {
            self.exec_system(instruction)
        } else {
            self.set_exception_cause(CAUSE_ILLEGAL_INSTRUCTION)
        }
    }

    /// The soft-float operation that the instruction at `pc` needs, if any: the caller
    /// performs it and hands its outcome to [`Self::step`].
    pub fn fp_request(&self) -> (r: Option<FpRequest>)
        ensures
            r == pending_request(self@),
    {
        match self.fetch_instraction() {
            None => None,
            Some(instruction) => self.fp_request_for(&instruction),
        }
    }

    /// Executes the instruction at `pc`, and the trap handler if it traps. `res` is the
    /// outcome of the operation that [`Self::fp_request`] named, if it named one.
    pub fn step(&mut self, res: FpResult)
        ensures
            final(self)@ == step_semantics(old(self)@, res),
    {
        let ok = match self.fetch_instraction() {
            None => self.set_exception_cause(CAUSE_ILLEGAL_INSTRUCTION),
            Some(instruction) => self.decode_and_exec(&instruction, res),
        };
        if !ok {
            self.call_exception();
        }
    }

    /// Resets the CSRs that have a defined value at start: `mhartid` is 0.
    pub fn initialize_csrs(&mut self)
        ensures
            final(self)@ == old(self)@.write_csr_raw(M_HARTID as int, 0),
    {
        self.csrs[M_HARTID] = 0;
    }
}

} // verus!
