//! The architectural state of the hart, its abstract view, memory access and the
//! control-and-status register file.
use vstd::prelude::*;
use vstd::wrapping::u64_specs;

verus! {

/// Privilege mode.
#[derive(PartialEq, Eq, Clone, Copy, Debug, Structural)]
pub enum MachineMode {
    U,
    S,
    M,
}

/// The numeric level of a privilege mode: User 0, Supervisor 1, Machine 3.
pub open spec fn mode_level(m: MachineMode) -> u64 {
    match m {
        MachineMode::U => 0,
        MachineMode::S => 1,
        MachineMode::M => 3,
    }
}

impl MachineMode {
    /// The mode with the given level, if there is one.
    pub fn from_u64(mode: u64) -> (r: Option<Self>)
        ensures
            r is Some <==> (mode == 0 || mode == 1 || mode == 3),
            r matches Some(m) ==> mode_level(m) == mode,
    {
        match mode {
            0 => Some(MachineMode::U),
            1 => Some(MachineMode::S),
            3 => Some(MachineMode::M),
            _ => None,
        }
    }

    pub fn to_usize(&self) -> (r: usize)
        ensures
            r == mode_level(*self),
    {
        match self {
            MachineMode::U => 0,
            MachineMode::S => 1,
            MachineMode::M => 3,
        }
    }
}

pub const FFLAGS: usize = 0x001;
pub const FRM: usize = 0x002;
pub const FCSR: usize = 0x003;
pub const M_STATUS: usize = 0x300;
pub const M_EDELEG: usize = 0x302;
pub const M_IDELEG: usize = 0x303;
pub const M_TVEC: usize = 0x305;
pub const M_EPC: usize = 0x341;
pub const M_CAUSE: usize = 0x342;
pub const M_HARTID: usize = 0xf14;

pub const M_STATUS_MASK: u64 = 0x8000_003f_007f_ffea;
pub const M_EDELEG_MASK: u64 = 0xffff_0000_ff00_bbff;

pub const CAUSE_ILLEGAL_INSTRUCTION: u64 = 2;
pub const CAUSE_LOAD_ACCESS_FAULT: u64 = 5;
pub const CAUSE_STORE_ACCESS_FAULT: u64 = 7;
pub const CAUSE_ECALL_FROM_U: u64 = 8;
pub const CAUSE_ECALL_FROM_S: u64 = 9;
pub const CAUSE_ECALL_FROM_M: u64 = 11;

/// The emulator: one hart with its registers, CSRs and flat memory.
pub struct Rv64SGEmulator {
    pub memory: Vec<u8>,
    /// The load-reserved byte range `[lo, hi)`, if any.
    pub preserved_memory: Option<(u64, u64)>,
    pub registers: [u64; 32],
    pub f_registers: [u64; 32],
    pub csrs: [u64; 4096],
    pub pc: u64,
    pub mode: MachineMode,
}

/// The abstract state of the hart.
pub ghost struct MachineState {
    pub memory: Seq<u8>,
    pub reservation: Option<(u64, u64)>,
    pub x: Seq<u64>,
    pub f: Seq<u64>,
    pub csrs: Seq<u64>,
    pub pc: u64,
    pub mode: MachineMode,
}

impl View for Rv64SGEmulator {
    type V = MachineState;

    open spec fn view(&self) -> MachineState {
        MachineState {
            memory: self.memory@,
            reservation: self.preserved_memory,
            x: self.registers@,
            f: self.f_registers@,
            csrs: self.csrs@,
            pc: self.pc,
            mode: self.mode,
        }
    }
}

impl MachineState {
    pub open spec fn wf(self) -> bool {
        self.x.len() == 32 && self.f.len() == 32 && self.csrs.len() == 4096
    }

    /// The value of integer register `i`: register 0 always reads 0.
    pub open spec fn read_x(self, i: int) -> u64 {
        if i == 0 {
            0
        } else {
            self.x[i]
        }
    }

    /// Writes integer register `i`; a write to register 0 is dropped.
    pub open spec fn write_x(self, i: int, v: u64) -> MachineState {
        if i == 0 {
            self
        } else {
            MachineState { x: self.x.update(i, v), ..self }
        }
    }

    pub open spec fn write_f(self, i: int, v: u64) -> MachineState {
        MachineState { f: self.f.update(i, v), ..self }
    }

    pub open spec fn write_csr_raw(self, i: int, v: u64) -> MachineState {
        MachineState { csrs: self.csrs.update(i, v), ..self }
    }

    pub open spec fn with_pc(self, pc: u64) -> MachineState {
        MachineState { pc, ..self }
    }

    pub open spec fn with_memory(self, m: Seq<u8>) -> MachineState {
        MachineState { memory: m, ..self }
    }

    /// Records `cause` in `mcause`; the instruction has trapped.
    pub open spec fn raise(self, cause: u64) -> (MachineState, bool) {
        (self.write_csr_raw(M_CAUSE as int, cause), false)
    }

    /// Sets the program counter; a counter whose 4-byte fetch would leave memory is an
    /// illegal instruction.
    pub open spec fn advance_to(self, pc: u64) -> (MachineState, bool) {
        if over_memory(self.memory.len(), pc, 4) {
            self.with_pc(pc).raise(CAUSE_ILLEGAL_INSTRUCTION)
        } else {
            (self.with_pc(pc), true)
        }
    }

    /// Moves on to the next instruction.
    pub open spec fn next(self) -> (MachineState, bool) {
        self.advance_to(u64_specs::wrapping_add(self.pc, 4))
    }
}

/// An access of `size` bytes at `addr` leaves a memory of `len` bytes.
pub open spec fn over_memory(len: nat, addr: u64, size: u64) -> bool {
    addr + size > len
}

/// The `width`-byte little-endian value at `a`: the lowest-addressed byte is the least
/// significant.
pub open spec fn load_le(mem: Seq<u8>, a: int, width: u64) -> u64 {
    if width == 1 {
        mem[a] as u64
    } else if width == 2 {
        (mem[a] as u64) | ((mem[a + 1] as u64) << 8u64)
    } else if width == 4 {
        (mem[a] as u64) | ((mem[a + 1] as u64) << 8u64) | ((mem[a + 2] as u64) << 16u64) | ((mem[a
            + 3] as u64) << 24u64)
    } else {
        (mem[a] as u64) | ((mem[a + 1] as u64) << 8u64) | ((mem[a + 2] as u64) << 16u64) | ((mem[a
            + 3] as u64) << 24u64) | ((mem[a + 4] as u64) << 32u64) | ((mem[a + 5] as u64)
            << 40u64) | ((mem[a + 6] as u64) << 48u64) | ((mem[a + 7] as u64) << 56u64)
    }
}

/// Memory after the low `width` bytes of `v` are stored little-endian at `a`.
pub open spec fn store_le(mem: Seq<u8>, a: int, width: u64, v: u64) -> Seq<u8> {
    let m1 = mem.update(a, v as u8);
    if width == 1 {
        m1
    } else {
        let m2 = m1.update(a + 1, (v >> 8u64) as u8);
        if width == 2 {
            m2
        } else {
            let m4 = m2.update(a + 2, (v >> 16u64) as u8).update(a + 3, (v >> 24u64) as u8);
            if width == 4 {
                m4
            } else {
                m4.update(a + 4, (v >> 32u64) as u8).update(a + 5, (v >> 40u64) as u8).update(
                    a + 6,
                    (v >> 48u64) as u8,
                ).update(a + 7, (v >> 56u64) as u8)
            }
        }
    }
}

pub open spec fn valid_width(width: u64) -> bool {
    width == 1 || width == 2 || width == 4 || width == 8
}

/// A load of `width` bytes: a load access fault past the end of memory.
pub open spec fn load_step(s: MachineState, addr: u64, width: u64) -> (MachineState, Option<u64>) {
    if over_memory(s.memory.len(), addr, width) {
        (s.write_csr_raw(M_CAUSE as int, CAUSE_LOAD_ACCESS_FAULT), None)
    } else {
        (s, Some(load_le(s.memory, addr as int, width)))
    }
}

/// A store of `width` bytes: a store access fault past the end of memory.
pub open spec fn store_step(s: MachineState, addr: u64, width: u64, v: u64) -> (MachineState, bool) {
    if over_memory(s.memory.len(), addr, width) {
        s.raise(CAUSE_STORE_ACCESS_FAULT)
    } else {
        (s.with_memory(store_le(s.memory, addr as int, width, v)), true)
    }
}

/// The privilege that CSR number `c` asks for (bits 9:8).
pub open spec fn csr_privilege(c: u64) -> u64 {
    (c >> 8u64) & 3
}

/// The read/write class of CSR number `c` (bits 11:10): 0 and 1 read/write, 3 read-only;
/// 2 is not handled by this core.
pub open spec fn csr_class(c: u64) -> u64 {
    c >> 10u64
}

pub open spec fn csr_readable(mode: MachineMode, c: u64) -> bool {
    mode_level(mode) >= csr_privilege(c) && csr_class(c) != 2
}

pub open spec fn csr_writable(mode: MachineMode, c: u64) -> bool {
    mode_level(mode) >= csr_privilege(c) && csr_class(c) <= 1
}

/// The value that reading CSR `c` yields: `frm` and `fflags` are fields of `fcsr`.
pub open spec fn csr_value(csrs: Seq<u64>, c: int) -> u64 {
    if c == FRM {
        (csrs[FCSR as int] & 0xe0) >> 5u64
    } else if c == FFLAGS {
        csrs[FCSR as int] & 0x1f
    } else {
        csrs[c]
    }
}

/// The CSR file after writing `v` to CSR `c`, with each CSR's write mask.
pub open spec fn csr_update(csrs: Seq<u64>, c: int, v: u64) -> Seq<u64> {
    if c == FCSR {
        csrs.update(FCSR as int, v & 0xff)
    } else if c == FRM {
        csrs.update(FCSR as int, (csrs[FCSR as int] & 0x1f) | ((v & 0x7) << 5u64))
    } else if c == FFLAGS {
        csrs.update(FCSR as int, (csrs[FCSR as int] & 0xe0) | (v & 0x1f))
    } else if c == M_STATUS {
        csrs.update(c, v & M_STATUS_MASK)
    } else if c == M_EDELEG {
        csrs.update(c, v & M_EDELEG_MASK)
    } else if c == M_TVEC {
        if v & 3 > 1 {
            csrs
        } else {
            csrs.update(c, v)
        }
    } else if c == M_EPC {
        csrs.update(c, v & 0xffff_ffff_ffff_fffe)
    } else {
        csrs.update(c, v)
    }
}

/// Reading a CSR: an illegal instruction where the mode or the class forbids it.
pub open spec fn csr_read_step(s: MachineState, c: u64) -> (MachineState, Option<u64>) {
    if csr_readable(s.mode, c) {
        (s, Some(csr_value(s.csrs, c as int)))
    } else {
        (s.write_csr_raw(M_CAUSE as int, CAUSE_ILLEGAL_INSTRUCTION), None)
    }
}

/// Writing a CSR: an illegal instruction where the mode or the class forbids it.
pub open spec fn csr_write_step(s: MachineState, c: u64, v: u64) -> (MachineState, bool) {
    if csr_writable(s.mode, c) {
        (MachineState { csrs: csr_update(s.csrs, c as int, v), ..s }, true)
    } else {
        s.raise(CAUSE_ILLEGAL_INSTRUCTION)
    }
}

/// What an access to a CSR may do in a given mode.
pub struct CsrStatus {
    readable: bool,
    writable: bool,
}

impl CsrStatus {
    pub closed spec fn readable(&self) -> bool {
        self.readable
    }

    pub closed spec fn writable(&self) -> bool {
        self.writable
    }

    /// The access rights on CSR `rv_csr` in `mode`; `None` where the CSR's privilege is
    /// above the mode or its class is not handled.
    pub fn from_usize(mode: &MachineMode, rv_csr: usize) -> (r: Option<Self>)
        requires
            rv_csr < 4096,
        ensures
            r is Some <==> csr_readable(*mode, rv_csr as u64),
            r matches Some(st) ==> st.readable() && st.writable() == csr_writable(
                *mode,
                rv_csr as u64,
            ),
    {
        let c = rv_csr as u64;
        if (mode.to_usize() as u64) < (c >> 8u64) & 3 {
            return None;
        }
        let class = c >> 10u64;
        assert(c >> 10u64 <= 3) by (bit_vector)
            requires
                c < 4096,
        ;
        if class == 3 {
            Some(CsrStatus { readable: true, writable: false })
        } else if class <= 1 {
            Some(CsrStatus { readable: true, writable: true })
        } else {
            None
        }
    }
}

impl Rv64SGEmulator {
    /// A fresh hart: `memsz` bytes of memory holding the start of `image`, `pc = entry`,
    /// `x[2] = sp`, Machine mode, every other cell zero.
    pub fn new(entry: u64, sp: u64, memsz: usize, image: &[u8]) -> (r: Self)
        ensures
            r@.memory.len() == memsz,
            forall|i: int|
                0 <= i < memsz ==> r@.memory[i] == (if i < image@.len() { image@[i] } else { 0 }),
            r@.x == Seq::new(32, |i: int| if i == 2 { sp } else { 0u64 }),
            r@.f == Seq::new(32, |i: int| 0u64),
            r@.csrs == Seq::new(4096, |i: int| 0u64),
            r@.pc == entry,
            r@.mode == MachineMode::M,
            r@.reservation is None,
    {
        let mut memory: Vec<u8> = Vec::with_capacity(memsz);
        let mut i: usize = 0;
        while i < memsz
            invariant
                i <= memsz,
                memory@.len() == i,
                forall|j: int| 0 <= j < i ==> memory@[j] == (if j < image@.len() { image@[j] } else { 0 }),
            decreases memsz - i,
        {
            if i < image.len() {
                memory.push(image[i]);
            } else {
                memory.push(0);
            }
            i = i + 1;
        }
        let mut registers = [0u64; 32];
        registers[2] = sp;
        let r = Rv64SGEmulator {
            memory,
            preserved_memory: None,
            registers,
            f_registers: [0u64; 32],
            csrs: [0u64; 4096],
            pc: entry,
            mode: MachineMode::M,
        };
        assert(r@.x =~= Seq::new(32, |i: int| if i == 2 { sp } else { 0u64 }));
        assert(r@.f =~= Seq::new(32, |i: int| 0u64));
        assert(r@.csrs =~= Seq::new(4096, |i: int| 0u64));
        r
    }

    /// Integer register `i`; register 0 reads 0.
    pub fn xreg(&self, i: usize) -> (r: u64)
        requires
            i < 32,
        ensures
            r == self@.read_x(i as int),
    {
        if i == 0 {
            0
        } else {
            self.registers[i]
        }
    }

    /// Writes integer register `i`, dropping a write to register 0.
    pub fn set_xreg(&mut self, i: usize, v: u64)
        requires
            i < 32,
        ensures
            final(self)@ == old(self)@.write_x(i as int, v),
    {
        if i != 0 {
            self.registers[i] = v;
        }
    }

    /// Whether an access of `size` bytes at `address` leaves memory.
    pub fn is_over_memory(&self, address: u64, size: u64) -> (r: bool)
        requires
            size <= 8,
        ensures
            r == over_memory(self@.memory.len(), address, size),
    {
        let len = self.memory.len() as u64;
        len < size || address > len - size
    }

    pub fn is_exit(&self, end_point: u64) -> (r: bool)
        ensures
            r == (self.pc == end_point),
    {
        self.pc == end_point
    }

    /// Records `cause` in `mcause` and reports a trap.
    pub fn set_exception_cause(&mut self, cause: u64) -> (r: bool)
        ensures
            (final(self)@, r) == old(self)@.raise(cause),
    {
        self.csrs[M_CAUSE] = cause;
        false
    }

    /// Sets the program counter, trapping if an instruction cannot be fetched there.
    pub fn progress_pc(&mut self, pc: u64) -> (r: bool)
        ensures
            (final(self)@, r) == old(self)@.advance_to(pc),
    {
        self.pc = pc;
        if self.is_over_memory(pc, 4) {
            self.set_exception_cause(CAUSE_ILLEGAL_INSTRUCTION)
        } else {
            true
        }
    }

    /// Moves on to the next instruction.
    pub fn next_pc(&mut self) -> (r: bool)
        ensures
            (final(self)@, r) == old(self)@.next(),
    {
        let pc = self.pc.wrapping_add(4);
        self.progress_pc(pc)
    }

    /// Loads `width` bytes little-endian from `addr`.
    pub fn load(&mut self, addr: u64, width: u64) -> (r: Option<u64>)
        requires
            valid_width(width),
        ensures
            (final(self)@, r) == load_step(old(self)@, addr, width),
    {
        if self.is_over_memory(addr, width) {
            self.set_exception_cause(CAUSE_LOAD_ACCESS_FAULT);
            return None;
        }
        let len = self.memory.len();
        assert(addr + width <= len);
        let a = addr as usize;
        assert(a == addr);
        let m = &self.memory;
        if width == 1 {
            Some(m[a] as u64)
        } else if width == 2 {
            Some((m[a] as u64) | ((m[a + 1] as u64) << 8u64))
        } else if width == 4 {
            Some((m[a] as u64) | ((m[a + 1] as u64) << 8u64) | ((m[a + 2] as u64) << 16u64) | ((m[a
                + 3] as u64) << 24u64))
        } else {
            Some((m[a] as u64) | ((m[a + 1] as u64) << 8u64) | ((m[a + 2] as u64) << 16u64) | ((m[a
                + 3] as u64) << 24u64) | ((m[a + 4] as u64) << 32u64) | ((m[a + 5] as u64)
                << 40u64) | ((m[a + 6] as u64) << 48u64) | ((m[a + 7] as u64) << 56u64))
        }
    }

    /// Stores the low `width` bytes of `v` little-endian at `addr`.
    pub fn store(&mut self, addr: u64, width: u64, v: u64) -> (r: bool)
        requires
            valid_width(width),
        ensures
            (final(self)@, r) == store_step(old(self)@, addr, width, v),
    {
        if self.is_over_memory(addr, width) {
            return self.set_exception_cause(CAUSE_STORE_ACCESS_FAULT);
        }
        let len = self.memory.len();
        assert(addr + width <= len);
        let a = addr as usize;
        assert(a == addr);
        self.memory.set(a, v as u8);
        if width >= 2 {
            self.memory.set(a + 1, (v >> 8u64) as u8);
        }
        if width >= 4 {
            self.memory.set(a + 2, (v >> 16u64) as u8);
            self.memory.set(a + 3, (v >> 24u64) as u8);
        }
        if width == 8 {
            self.memory.set(a + 4, (v >> 32u64) as u8);
            self.memory.set(a + 5, (v >> 40u64) as u8);
            self.memory.set(a + 6, (v >> 48u64) as u8);
            self.memory.set(a + 7, (v >> 56u64) as u8);
        }
        true
    }

    pub fn load_memory_8bit(&mut self, offset: usize) -> (r: Option<u64>)
        ensures
            (final(self)@, r) == load_step(old(self)@, offset as u64, 1),
    {
        self.load(offset as u64, 1)
    }

    pub fn load_memory_16bit(&mut self, offset: usize) -> (r: Option<u64>)
        ensures
            (final(self)@, r) == load_step(old(self)@, offset as u64, 2),
    {
        self.load(offset as u64, 2)
    }

    pub fn load_memory_32bit(&mut self, offset: usize) -> (r: Option<u64>)
        ensures
            (final(self)@, r) == load_step(old(self)@, offset as u64, 4),
    {
        self.load(offset as u64, 4)
    }

    pub fn load_memory_64bit(&mut self, offset: usize) -> (r: Option<u64>)
        ensures
            (final(self)@, r) == load_step(old(self)@, offset as u64, 8),
    {
        self.load(offset as u64, 8)
    }

    pub fn save_memory_8bit(&mut self, offset: usize, value: u64) -> (r: bool)
        ensures
            (final(self)@, r) == store_step(old(self)@, offset as u64, 1, value),
    {
        self.store(offset as u64, 1, value)
    }

    pub fn save_memory_16bit(&mut self, offset: usize, value: u64) -> (r: bool)
        ensures
            (final(self)@, r) == store_step(old(self)@, offset as u64, 2, value),
    {
        self.store(offset as u64, 2, value)
    }

    pub fn save_memory_32bit(&mut self, offset: usize, value: u64) -> (r: bool)
        ensures
            (final(self)@, r) == store_step(old(self)@, offset as u64, 4, value),
    {
        self.store(offset as u64, 4, value)
    }

    pub fn save_memory_64bit(&mut self, offset: usize, value: u64) -> (r: bool)
        ensures
            (final(self)@, r) == store_step(old(self)@, offset as u64, 8, value),
    {
        self.store(offset as u64, 8, value)
    }

    /// Reads CSR `rv_csr`.
    pub fn read_csr(&mut self, rv_csr: usize) -> (r: Option<u64>)
        requires
            rv_csr < 4096,
        ensures
            (final(self)@, r) == csr_read_step(old(self)@, rv_csr as u64),
    {
        match CsrStatus::from_usize(&self.mode, rv_csr) {
            None => {
                self.set_exception_cause(CAUSE_ILLEGAL_INSTRUCTION);
                None
            },
            Some(_) => {
                if rv_csr == FRM {
                    Some((self.csrs[FCSR] & 0xe0) >> 5u64)
                } else if rv_csr == FFLAGS {
                    Some(self.csrs[FCSR] & 0x1f)
                } else {
                    Some(self.csrs[rv_csr])
                }
            },
        }
    }

    /// Writes `value` to CSR `rv_csr` under that CSR's write mask.
    pub fn write_csr(&mut self, rv_csr: usize, value: u64) -> (r: bool)
        requires
            rv_csr < 4096,
        ensures
            (final(self)@, r) == csr_write_step(old(self)@, rv_csr as u64, value),
    {
        let writable = match CsrStatus::from_usize(&self.mode, rv_csr) {
            None => false,
            Some(st) => st.writable,
        };
        if !writable {
            return self.set_exception_cause(CAUSE_ILLEGAL_INSTRUCTION);
        }
        if rv_csr == FCSR {
            self.csrs[FCSR] = value & 0xff;
        } else if rv_csr == FRM {
            self.csrs[FCSR] = (self.csrs[FCSR] & 0x1f) | ((value & 0x7) << 5u64);
        } else if rv_csr == FFLAGS {
            self.csrs[FCSR] = (self.csrs[FCSR] & 0xe0) | (value & 0x1f);
        } else if rv_csr == M_STATUS {
            self.csrs[M_STATUS] = value & M_STATUS_MASK;
        } else if rv_csr == M_EDELEG {
            self.csrs[M_EDELEG] = value & M_EDELEG_MASK;
        } else if rv_csr == M_TVEC {
            if value & 3 <= 1 {
                self.csrs[M_TVEC] = value;
            }
        } else if rv_csr == M_EPC {
            self.csrs[M_EPC] = value & 0xffff_ffff_ffff_fffe;
        } else {
            self.csrs[rv_csr] = value;
        }
        true
    }
}

} // verus!
