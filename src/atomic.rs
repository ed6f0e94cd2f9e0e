//! The atomic extension: read-modify-write memory operations and the
//! load-reserved / store-conditional pair.
use crate::alu::{low32, signed, signed32, signed_less, wadd};
use crate::fields::{
    extend_sign_32bit, extract_funct3, extract_rd, extract_rs1, extract_rs2, funct3_field,
    instruction_word, rd_field, rs1_field, rs2_field, sext, truncate_top_32bit, word_of,
};
use crate::machine::{
    load_step, store_step, MachineState, Rv64SGEmulator, CAUSE_ILLEGAL_INSTRUCTION,
};
use vstd::prelude::*;

verus! {

/// The value an AMO stores, from the loaded value `t` and the operand `b`, by the
/// operation field `word[31:27]`; `word` selects the 32-bit form.
pub open spec fn amo_result(op: u64, word: bool, t: u64, b: u64) -> Option<u64> {
    let lt = if word {
        signed32(low32(t)) < signed32(low32(b))
    } else {
        signed(t) < signed(b)
    };
    let ltu = if word {
        low32(t) < low32(b)
    } else {
        t < b
    };
    if op == 0 {
        Some(wadd(t, b))
    } else if op == 1 {
        Some(b)
    } else if op == 4 {
        Some(t ^ b)
    } else if op == 8 {
        Some(t | b)
    } else if op == 0xc {
        Some(t & b)
    } else if op == 0x10 {
        Some(if lt { t } else { b })
    } else if op == 0x14 {
        Some(if lt { b } else { t })
    } else if op == 0x18 {
        Some(if ltu { t } else { b })
    } else if op == 0x1c {
        Some(if ltu { b } else { t })
    } else {
        None
    }
}

/// The value an AMO stores.

/// The value an AMO stores.
pub fn compute_amo(op: u64, word: bool, t: u64, b: u64) -> (r: Option<u64>)
    ensures
        r == amo_result(op, word, t, b),
{
    let (lt, ltu) = if word {
        let x = truncate_top_32bit(t);
        let y = truncate_top_32bit(b);
        (signed_less(extend_sign_32bit(x), extend_sign_32bit(y)), x < y)
    } else {
        (signed_less(t, b), t < b)
    };
    proof {
        if word {
            crate::alu::lemma_low32(t);
            crate::alu::lemma_low32(b);
            lemma_signed_w32(low32(t));
            lemma_signed_w32(low32(b));
        }
    }
    if op == 0 {
        Some(t.wrapping_add(b))
    } else if op == 1 {
        Some(b)
    } else if op == 4 {
        Some(t ^ b)
    } else if op == 8 {
        Some(t | b)
    } else if op == 0xc {
        Some(t & b)
    } else if op == 0x10 {
        Some(if lt { t } else { b })
    } else if op == 0x14 {
        Some(if lt { b } else { t })
    } else if op == 0x18 {
        Some(if ltu { t } else { b })
    } else if op == 0x1c {
        Some(if ltu { b } else { t })
    } else {
        None
    }
}

/// Sign extension from 32 bits keeps the two's-complement value of a 32-bit pattern.
pub proof fn lemma_signed_w32(x: u64)
    requires
        x < 0x1_0000_0000,
    ensures
        signed(sext(x, 32)) == signed32(x),
{
    assert(x < 0x8000_0000 ==> sext(x, 32) == x) by (bit_vector)
        requires
            x < 0x1_0000_0000,
    ;
    assert(x >= 0x8000_0000 ==> sext(x, 32) == x + 0xffff_ffff_0000_0000) by (bit_vector)
        requires
            x < 0x1_0000_0000,
    ;
}

/// `AMO*.W` / `AMO*.D`: load, store the combined value, loaded value to `rd`
/// (sign-extended from 32 bits in the word form).
pub open spec fn amo_semantics(s: MachineState, w: u32) -> (MachineState, bool) {
    let word = funct3_field(w) == 2;
    let width: u64 = if word { 4 } else { 8 };
    let addr = s.read_x(rs1_field(w) as int);
    match amo_result((w >> 27u32) as u64, word, 0, 0) {
        None => s.raise(CAUSE_ILLEGAL_INSTRUCTION),
        Some(_) => {
            let (t, v) = load_step(s, addr, width);
            match v {
                None => (t, false),
                Some(v) => {
                    let n = amo_result((w >> 27u32) as u64, word, v, s.read_x(rs2_field(w) as int)).unwrap();
                    let (u, ok) = store_step(t, addr, width, n);
                    if ok {
                        u.write_x(rd_field(w) as int, if word { sext(v, 32) } else { v }).next()
                    } else {
                        (u, false)
                    }
                },
            }
        },
    }
}

/// `LR.W`: load a word, sign-extended into `rd`, and reserve `[addr, addr + 4)`.
pub open spec fn lr_semantics(s: MachineState, w: u32) -> (MachineState, bool) {
    let addr = s.read_x(rs1_field(w) as int);
    let (t, v) = load_step(s, addr, 4);
    match v {
        None => (t, false),
        Some(v) => MachineState {
            reservation: Some((addr, (addr + 4) as u64)),
            ..t.write_x(rd_field(w) as int, sext(v, 32))
        }.next(),
    }
}

/// Whether the reservation covers `[addr, addr + 4)`.
pub open spec fn reserved(r: Option<(u64, u64)>, addr: u64) -> bool {
    match r {
        None => false,
        Some((lo, hi)) => lo <= addr && addr + 4 <= hi,
    }
}

/// `SC.W`: store `rs2` and write 0 to `rd` if the word is reserved; else write 1 and leave
/// memory alone. The reservation is cleared in every case.
pub open spec fn sc_semantics(s: MachineState, w: u32) -> (MachineState, bool) {
    let addr = s.read_x(rs1_field(w) as int);
    let ok = reserved(s.reservation, addr);
    let cleared = MachineState { reservation: None, ..s };
    let (t, stored) = if ok {
        store_step(cleared, addr, 4, s.read_x(rs2_field(w) as int))
    } else {
        (cleared, true)
    };
    if stored {
        t.write_x(rd_field(w) as int, if ok { 0 } else { 1 }).next()
    } else {
        (t, false)
    }
}

/// `AMO`: the atomic opcode.
pub open spec fn atomic_semantics(s: MachineState, w: u32) -> (MachineState, bool) {
    let f3 = funct3_field(w);
    let op = w >> 27u32;
    if f3 == 2 && op == 2 {
        lr_semantics(s, w)
    } else if f3 == 2 && op == 3 {
        sc_semantics(s, w)
    } else if f3 == 2 || f3 == 3 {
        amo_semantics(s, w)
    } else {
        s.raise(CAUSE_ILLEGAL_INSTRUCTION)
    }
}

impl Rv64SGEmulator {
    fn exec_amo(&mut self, instruction: &Vec<u8>, op: u64) -> (ok: bool)
        requires
            instruction@.len() == 4,
            op == (word_of(instruction@) >> 27u32) as u64,
        ensures
            (final(self)@, ok) == amo_semantics(old(self)@, word_of(instruction@)),
    {
        let word = extract_funct3(instruction) == 2;
        let width: u64 = if word { 4 } else { 8 };
        if compute_amo(op, word, 0, 0).is_none() {
            return self.set_exception_cause(CAUSE_ILLEGAL_INSTRUCTION);
        }
        let rd = extract_rd(instruction);
        let addr = self.xreg(extract_rs1(instruction));
        let b = self.xreg(extract_rs2(instruction));
        let t = match self.load(addr, width) {
            None => return false,
            Some(t) => t,
        };
        let n = match compute_amo(op, word, t, b) {
            None => return false,
            Some(n) => n,
        };
        if !self.store(addr, width, n) {
            return false;
        }
        self.set_xreg(rd, if word { extend_sign_32bit(t) } else { t });
        self.next_pc()
    }

    fn exec_lr(&mut self, instruction: &Vec<u8>) -> (ok: bool)
        requires
            instruction@.len() == 4,
        ensures
            (final(self)@, ok) == lr_semantics(old(self)@, word_of(instruction@)),
    {
        let rd = extract_rd(instruction);
        let addr = self.xreg(extract_rs1(instruction));
        let t = match self.load(addr, 4) {
            None => return false,
            Some(t) => t,
        };
        let len = self.memory.len();
        assert(addr + 4 <= len);
        self.set_xreg(rd, extend_sign_32bit(t));
        self.preserved_memory = Some((addr, addr + 4));
        self.next_pc()
    }

    fn exec_sc(&mut self, instruction: &Vec<u8>) -> (ok: bool)
        requires
            instruction@.len() == 4,
        ensures
            (final(self)@, ok) == sc_semantics(old(self)@, word_of(instruction@)),
    {
        let rd = extract_rd(instruction);
        let addr = self.xreg(extract_rs1(instruction));
        let value = self.xreg(extract_rs2(instruction));
        let ok = match self.preserved_memory {
            None => false,
            Some((lo, hi)) => lo <= addr && addr <= hi && hi - addr >= 4,
        };
        self.preserved_memory = None;
        if ok {
            if !self.store(addr, 4, value) {
                return false;
            }
        }
        self.set_xreg(rd, if ok { 0 } else { 1 });
        self.next_pc()
    }

    /// `AMO`: atomic memory operations, `lr.w` and `sc.w`.

    /// `AMO`: atomic memory operations, `lr.w` and `sc.w`.
    pub fn exec_atomic(&mut self, instruction: &Vec<u8>) -> (ok: bool)
        requires
            instruction@.len() == 4,
        ensures
            (final(self)@, ok) == atomic_semantics(old(self)@, word_of(instruction@)),
    {
        let f3 = extract_funct3(instruction);
        let op = (instruction_word(instruction) >> 27u32) as u64;
        if f3 == 2 && op == 2 {
            self.exec_lr(instruction)
        } else if f3 == 2 && op == 3 {
            self.exec_sc(instruction)
        } else if f3 == 2 || f3 == 3 {
            self.exec_amo(instruction, op)
        } else {
            self.set_exception_cause(CAUSE_ILLEGAL_INSTRUCTION)
        }
    }
}

} // verus!
