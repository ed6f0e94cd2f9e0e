use rv64sg::float::{FpOp, FpRequest, FpResult};
use rv64sg::machine::{MachineMode, Rv64SGEmulator, FCSR, M_CAUSE, M_EPC, M_STATUS, M_TVEC};

const NO_FP: FpResult = FpResult { bits: 0, flags: 0 };

fn r(f7: u32, rs2: u32, rs1: u32, f3: u32, rd: u32, op: u32) -> u32 {
    (f7 << 25) | (rs2 << 20) | (rs1 << 15) | (f3 << 12) | (rd << 7) | op
}

fn i(imm: i32, rs1: u32, f3: u32, rd: u32, op: u32) -> u32 {
    (((imm as u32) & 0xfff) << 20) | (rs1 << 15) | (f3 << 12) | (rd << 7) | op
}

fn s(imm: i32, rs2: u32, rs1: u32, f3: u32, op: u32) -> u32 {
    let imm = imm as u32;
    (((imm >> 5) & 0x7f) << 25) | (rs2 << 20) | (rs1 << 15) | (f3 << 12) | ((imm & 0x1f) << 7) | op
}

fn b(imm: i32, rs2: u32, rs1: u32, f3: u32) -> u32 {
    let imm = imm as u32;
    (((imm >> 12) & 1) << 31) | (((imm >> 5) & 0x3f) << 25) | (rs2 << 20) | (rs1 << 15) | (f3 << 12)
        | (((imm >> 1) & 0xf) << 8) | (((imm >> 11) & 1) << 7) | 0x63
}

fn u(imm20: u32, rd: u32, op: u32) -> u32 {
    (imm20 << 12) | (rd << 7) | op
}

fn j(imm: i32, rd: u32) -> u32 {
    let imm = imm as u32;
    (((imm >> 20) & 1) << 31) | (((imm >> 1) & 0x3ff) << 21) | (((imm >> 11) & 1) << 20)
        | (((imm >> 12) & 0xff) << 12) | (rd << 7) | 0x6f
}

fn addi(rd: u32, rs1: u32, imm: i32) -> u32 {
    i(imm, rs1, 0, rd, 0x13)
}

fn csrrw(rd: u32, csr: i32, rs1: u32) -> u32 {
    i(csr, rs1, 1, rd, 0x73)
}

fn csrrs(rd: u32, csr: i32, rs1: u32) -> u32 {
    i(csr, rs1, 2, rd, 0x73)
}

const ECALL: u32 = 0x0000_0073;
const MRET: u32 = 0x3020_0073;

/// A hart with 16 KiB of memory holding `program` from address 0.
fn machine(program: &[(u64, u32)]) -> Rv64SGEmulator {
    let mut image = vec![0u8; 0x4000];
    for (addr, word) in program {
        let a = *addr as usize;
        image[a..a + 4].copy_from_slice(&word.to_le_bytes());
    }
    Rv64SGEmulator::new(0, 4096, 0x4000, &image)
}

fn seq(words: &[u32]) -> Vec<(u64, u32)> {
    words.iter().enumerate().map(|(k, w)| ((4 * k) as u64, *w)).collect()
}

fn run(emu: &mut Rv64SGEmulator, end: u64) {
    for _ in 0..10_000 {
        if emu.is_exit(end) {
            return;
        }
        assert!(emu.fp_request().is_none());
        emu.step(NO_FP);
    }
    panic!("did not reach the end address");
}

fn steps(emu: &mut Rv64SGEmulator, n: usize) {
    for _ in 0..n {
        emu.step(NO_FP);
    }
}

#[test]
fn new_machine_state() {
    let emu = Rv64SGEmulator::new(0x40, 4096, 16, &[1, 2, 3]);
    assert_eq!(emu.memory, vec![1, 2, 3, 0, 0, 0, 0, 0, 0, 0, 0, 0, 0, 0, 0, 0]);
    assert_eq!(emu.pc, 0x40);
    assert_eq!(emu.registers[2], 4096);
    assert_eq!(emu.registers[1], 0);
    assert_eq!(emu.mode, MachineMode::M);
    assert!(emu.preserved_memory.is_none());
    let small = Rv64SGEmulator::new(0, 0, 2, &[9, 8, 7, 6]);
    assert_eq!(small.memory, vec![9, 8]);
}

#[test]
fn add_program_writes_pass_word() {
    let mut program = seq(&[
        addi(1, 0, 5),
        addi(2, 0, 7),
        r(0, 2, 1, 0, 3, 0x33),
        addi(4, 0, 12),
        b(0x20, 4, 3, 1),
        u(1, 5, 0x37),
        addi(6, 0, 1),
        s(0, 6, 5, 3, 0x23),
        j(0x2c, 0),
    ]);
    program.push((0x30, u(1, 5, 0x37)));
    program.push((0x34, s(0, 0, 5, 3, 0x23)));
    program.push((0x38, j(0x14, 0)));
    let mut emu = machine(&program);
    run(&mut emu, 0x4c);
    assert_eq!(emu.registers[3], 12);
    assert_eq!(emu.load_memory_64bit(0x1000), Some(1));
}

#[test]
fn writes_to_x0_are_dropped() {
    let mut emu = machine(&seq(&[addi(0, 0, 5), r(0, 0, 0, 0, 0, 0x33), addi(1, 0, 3)]));
    steps(&mut emu, 3);
    assert_eq!(emu.registers[0], 0);
    assert_eq!(emu.xreg(0), 0);
    assert_eq!(emu.registers[1], 3);
    emu.registers[0] = 77;
    assert_eq!(emu.xreg(0), 0);
}

#[test]
fn division_boundaries() {
    let mut emu = machine(&seq(&[
        r(1, 2, 1, 4, 3, 0x33),  // div x3, x1, x2
        r(1, 2, 1, 6, 4, 0x33),  // rem x4, x1, x2
        r(1, 2, 1, 5, 5, 0x33),  // divu x5, x1, x2
        r(1, 2, 1, 7, 6, 0x33),  // remu x6, x1, x2
        r(1, 8, 7, 4, 9, 0x33),  // div x9, x7, x8
        r(1, 8, 7, 6, 10, 0x33), // rem x10, x7, x8
        r(1, 2, 1, 4, 11, 0x3b), // divw x11, x1, x2
        r(1, 2, 1, 6, 12, 0x3b), // remw x12, x1, x2
        r(1, 8, 13, 4, 14, 0x3b), // divw x14, x13, x8
        r(1, 8, 13, 6, 15, 0x3b), // remw x15, x13, x8
    ]));
    emu.registers[1] = 0x1_0000_0005;
    emu.registers[2] = 0;
    emu.registers[7] = 0x8000_0000_0000_0000;
    emu.registers[8] = u64::MAX;
    emu.registers[13] = 0x8000_0000;
    steps(&mut emu, 10);
    assert_eq!(emu.registers[3], u64::MAX);
    assert_eq!(emu.registers[4], 0x1_0000_0005);
    assert_eq!(emu.registers[5], u64::MAX);
    assert_eq!(emu.registers[6], 0x1_0000_0005);
    assert_eq!(emu.registers[9], 0x8000_0000_0000_0000);
    assert_eq!(emu.registers[10], 0);
    assert_eq!(emu.registers[11], u64::MAX);
    assert_eq!(emu.registers[12], 5);
    assert_eq!(emu.registers[14], 0xffff_ffff_8000_0000);
    assert_eq!(emu.registers[15], 0);
}

#[test]
fn signed_division_rounds_toward_zero() {
    let mut emu = machine(&seq(&[r(1, 2, 1, 4, 3, 0x33), r(1, 2, 1, 6, 4, 0x33)]));
    emu.registers[1] = (-7i64) as u64;
    emu.registers[2] = 2;
    steps(&mut emu, 2);
    assert_eq!(emu.registers[3] as i64, -3);
    assert_eq!(emu.registers[4] as i64, -1);
}

#[test]
fn high_multiplications() {
    let mut emu = machine(&seq(&[
        r(1, 2, 1, 1, 3, 0x33), // mulh
        r(1, 2, 1, 2, 4, 0x33), // mulhsu
        r(1, 2, 1, 3, 5, 0x33), // mulhu
        r(1, 2, 1, 0, 6, 0x33), // mul
        r(1, 2, 1, 0, 7, 0x3b), // mulw
    ]));
    emu.registers[1] = u64::MAX;
    emu.registers[2] = u64::MAX;
    steps(&mut emu, 5);
    assert_eq!(emu.registers[3], 0);
    assert_eq!(emu.registers[4], u64::MAX);
    assert_eq!(emu.registers[5], u64::MAX - 1);
    assert_eq!(emu.registers[6], 1);
    assert_eq!(emu.registers[7], 1);
}

#[test]
fn shift_amounts_are_masked() {
    let mut emu = machine(&seq(&[
        r(0, 2, 1, 1, 3, 0x33),    // sll x3, x1, x2
        r(0, 2, 1, 1, 4, 0x3b),    // sllw x4, x1, x2
        r(0x20, 2, 5, 5, 6, 0x33), // sra x6, x5, x2
        r(0x20, 2, 5, 5, 7, 0x3b), // sraw x7, x5, x2
        r(0, 2, 5, 5, 8, 0x33),    // srl x8, x5, x2
        i(0x404, 5, 5, 9, 0x13),   // srai x9, x5, 4
        i(0x41f, 5, 5, 10, 0x1b),  // sraiw x10, x5, 31
    ]));
    emu.registers[1] = 1;
    emu.registers[2] = 65;
    emu.registers[5] = 0x8000_0000_8000_0000;
    steps(&mut emu, 7);
    assert_eq!(emu.registers[3], 2);
    assert_eq!(emu.registers[4], 2);
    assert_eq!(emu.registers[6], 0xc000_0000_4000_0000);
    assert_eq!(emu.registers[7], 0xffff_ffff_c000_0000);
    assert_eq!(emu.registers[8], 0x4000_0000_4000_0000);
    assert_eq!(emu.registers[9], 0xf800_0000_0800_0000);
    assert_eq!(emu.registers[10], u64::MAX);
}

#[test]
fn word_shift_of_32_or_more_is_illegal() {
    // slliw x1, x1, 32
    let mut emu = machine(&seq(&[i(32, 1, 1, 1, 0x1b)]));
    emu.csrs[M_TVEC] = 0x200;
    emu.step(NO_FP);
    assert_eq!(emu.csrs[M_CAUSE], 2);
    assert_eq!(emu.pc, 0x200);
}

#[test]
fn compares_signed_and_unsigned() {
    let mut emu = machine(&seq(&[
        r(0, 2, 1, 2, 3, 0x33), // slt
        r(0, 2, 1, 3, 4, 0x33), // sltu
        i(-1, 2, 2, 5, 0x13),   // slti x5, x2, -1
        i(-1, 2, 3, 6, 0x13),   // sltiu x6, x2, -1
    ]));
    emu.registers[1] = (-1i64) as u64;
    emu.registers[2] = 1;
    steps(&mut emu, 4);
    assert_eq!(emu.registers[3], 1);
    assert_eq!(emu.registers[4], 0);
    assert_eq!(emu.registers[5], 0);
    assert_eq!(emu.registers[6], 1);
}

#[test]
fn loads_extend_by_kind() {
    let mut emu = machine(&seq(&[
        i(0, 1, 0, 2, 0x03), // lb
        i(0, 1, 4, 3, 0x03), // lbu
        i(0, 1, 1, 4, 0x03), // lh
        i(0, 1, 5, 5, 0x03), // lhu
        i(0, 1, 2, 6, 0x03), // lw
        i(0, 1, 6, 7, 0x03), // lwu
        i(0, 1, 3, 8, 0x03), // ld
    ]));
    emu.registers[1] = 0x800;
    assert!(emu.save_memory_64bit(0x800, 0x0123_4567_89ab_cdef));
    steps(&mut emu, 7);
    assert_eq!(emu.registers[2], 0xffff_ffff_ffff_ffef);
    assert_eq!(emu.registers[3], 0xef);
    assert_eq!(emu.registers[4], 0xffff_ffff_ffff_cdef);
    assert_eq!(emu.registers[5], 0xcdef);
    assert_eq!(emu.registers[6], 0xffff_ffff_89ab_cdef);
    assert_eq!(emu.registers[7], 0x89ab_cdef);
    assert_eq!(emu.registers[8], 0x0123_4567_89ab_cdef);
}

#[test]
fn store_then_load_masks_to_width() {
    let mut emu = Rv64SGEmulator::new(0, 0, 64, &[]);
    let v = 0x1122_3344_5566_7788u64;
    assert!(emu.save_memory_8bit(8, v));
    assert_eq!(emu.load_memory_8bit(8), Some(0x88));
    assert!(emu.save_memory_16bit(16, v));
    assert_eq!(emu.load_memory_16bit(16), Some(0x7788));
    assert!(emu.save_memory_32bit(24, v));
    assert_eq!(emu.load_memory_32bit(24), Some(0x5566_7788));
    assert!(emu.save_memory_64bit(32, v));
    assert_eq!(emu.load_memory_64bit(32), Some(v));
    assert_eq!(emu.memory[32], 0x88);
    assert_eq!(emu.memory[39], 0x11);
    // misaligned accesses work byte by byte
    assert!(emu.save_memory_32bit(41, 0xdead_beef));
    assert_eq!(emu.load_memory_32bit(41), Some(0xdead_beef));
}

#[test]
fn accesses_past_the_end_fault() {
    let mut emu = Rv64SGEmulator::new(0, 0, 64, &[]);
    assert_eq!(emu.load_memory_64bit(56), Some(0));
    assert_eq!(emu.load_memory_64bit(57), None);
    assert_eq!(emu.csrs[M_CAUSE], 5);
    emu.csrs[M_CAUSE] = 0;
    assert!(!emu.save_memory_16bit(63, 1));
    assert_eq!(emu.csrs[M_CAUSE], 7);
    assert!(emu.save_memory_8bit(63, 1));
    assert_eq!(emu.load_memory_8bit(usize::MAX), None);
}

#[test]
fn load_fault_traps_to_mtvec() {
    let mut emu = machine(&seq(&[i(0, 1, 3, 3, 0x03)]));
    emu.registers[1] = 0x4000;
    emu.csrs[M_TVEC] = 0x100;
    emu.step(NO_FP);
    assert_eq!(emu.csrs[M_CAUSE], 5);
    assert_eq!(emu.csrs[M_EPC], 0);
    assert_eq!(emu.pc, 0x100);
    assert_eq!(emu.registers[3], 0);
}

#[test]
fn branches_and_jumps() {
    let mut emu = machine(&seq(&[
        b(8, 2, 1, 0),          // 0x00 beq x1, x2, +8 (not taken)
        b(8, 2, 1, 4),          // 0x04 blt x1, x2, +8 (taken: -1 < 1)
        addi(10, 0, 99),        // 0x08 skipped
        b(8, 2, 1, 6),          // 0x0c bltu x1, x2, +8 (not taken)
        j(0x10, 5),             // 0x10 jal x5, +16 -> 0x20
    ]));
    emu.registers[1] = u64::MAX;
    emu.registers[2] = 1;
    steps(&mut emu, 4);
    assert_eq!(emu.pc, 0x20);
    assert_eq!(emu.registers[5], 0x14);
    assert_eq!(emu.registers[10], 0);
}

#[test]
fn jalr_clears_bit_zero_and_links() {
    let mut emu = machine(&seq(&[i(3, 1, 0, 1, 0x67)]));
    emu.registers[1] = 0x100;
    emu.step(NO_FP);
    assert_eq!(emu.pc, 0x102);
    assert_eq!(emu.registers[1], 4);
}

#[test]
fn upper_immediates() {
    let mut emu = machine(&seq(&[addi(0, 0, 0), u(0xfffff, 1, 0x37), u(1, 2, 0x17)]));
    steps(&mut emu, 3);
    assert_eq!(emu.registers[1], 0xffff_ffff_ffff_f000);
    assert_eq!(emu.registers[2], 0x1008);
}

#[test]
fn ecall_traps_and_mret_returns() {
    let mut program = seq(&[
        addi(1, 0, 0x100),
        csrrw(0, 0x305, 1), // mtvec = 0x100
        ECALL,              // 0x08
        addi(7, 0, 42),     // 0x0c
    ]);
    program.push((0x100, csrrs(2, 0x341, 0))); // x2 = mepc
    program.push((0x104, csrrs(3, 0x342, 0))); // x3 = mcause
    program.push((0x108, addi(2, 2, 4)));
    program.push((0x10c, csrrw(0, 0x341, 2))); // mepc += 4
    program.push((0x110, MRET));
    let mut emu = machine(&program);
    run(&mut emu, 0x10);
    assert_eq!(emu.registers[3], 11);
    assert_eq!(emu.registers[7], 42);
    assert_eq!(emu.mode, MachineMode::M);
}

#[test]
fn mret_returns_to_the_trapping_pc() {
    let mut emu = machine(&seq(&[0xffff_ffff]));
    emu.csrs[M_TVEC] = 0x200;
    emu.memory[0x200..0x204].copy_from_slice(&MRET.to_le_bytes());
    emu.step(NO_FP);
    assert_eq!(emu.pc, 0x200);
    assert_eq!(emu.csrs[M_CAUSE], 2);
    assert_eq!(emu.csrs[M_EPC], 0);
    assert_eq!((emu.csrs[M_STATUS] >> 11) & 3, 3);
    emu.step(NO_FP);
    assert_eq!(emu.pc, 0);
    assert_eq!(emu.mode, MachineMode::M);
}

#[test]
fn user_mode_cannot_touch_machine_csrs() {
    // Drop to User mode through mret with MPP = 0, then read mstatus.
    let mut program = seq(&[
        addi(1, 0, 0x40),
        csrrw(0, 0x341, 1), // mepc = 0x40
        csrrw(0, 0x300, 0), // mstatus = 0: MPP = User
        addi(2, 0, 0x80),
        csrrw(0, 0x305, 2), // mtvec = 0x80
        MRET,
    ]);
    program.push((0x40, csrrs(5, 0x300, 0)));
    program.push((0x44, ECALL));
    let mut emu = machine(&program);
    steps(&mut emu, 6);
    assert_eq!(emu.mode, MachineMode::U);
    assert_eq!(emu.pc, 0x40);
    emu.step(NO_FP);
    assert_eq!(emu.csrs[M_CAUSE], 2);
    assert_eq!(emu.mode, MachineMode::M);
    assert_eq!(emu.pc, 0x80);
    assert_eq!(emu.csrs[M_EPC], 0x40);
    assert_eq!((emu.csrs[M_STATUS] >> 11) & 3, 0);
}

#[test]
fn ecall_cause_depends_on_mode() {
    let mut emu = machine(&seq(&[ECALL]));
    emu.mode = MachineMode::U;
    emu.step(NO_FP);
    assert_eq!(emu.csrs[M_CAUSE], 8);
    let mut emu = machine(&seq(&[ECALL]));
    emu.mode = MachineMode::S;
    emu.step(NO_FP);
    assert_eq!(emu.csrs[M_CAUSE], 9);
}

#[test]
fn delegated_exception_goes_to_supervisor() {
    let mut emu = machine(&seq(&[ECALL]));
    emu.mode = MachineMode::U;
    emu.csrs[0x302] = 1 << 8;
    emu.step(NO_FP);
    assert_eq!(emu.mode, MachineMode::S);
    assert_eq!(emu.pc, 0);
}

#[test]
fn csr_writes_are_masked() {
    let mut emu = machine(&seq(&[
        csrrw(0, 0x003, 1), // fcsr = x1
        csrrs(2, 0x002, 0), // x2 = frm
        csrrs(3, 0x001, 0), // x3 = fflags
        csrrw(0, 0x300, 1), // mstatus = x1
        csrrw(0, 0x341, 1), // mepc = x1
        csrrw(0, 0x305, 4), // mtvec = x4 (mode 2: ignored)
        i(0x002, 10, 5, 5, 0x73), // csrrwi x5, frm, 10 -> frm = 2
        i(0x001, 3, 7, 6, 0x73),  // csrrci x6, fflags, 3
        csrrs(7, 0x003, 0),  // x7 = fcsr
    ]));
    emu.registers[1] = u64::MAX;
    emu.registers[4] = 0x102;
    steps(&mut emu, 9);
    assert_eq!(emu.registers[2], 7);
    assert_eq!(emu.registers[3], 0x1f);
    assert_eq!(emu.csrs[M_STATUS], 0x8000_003f_007f_ffea);
    assert_eq!(emu.csrs[M_EPC], u64::MAX - 1);
    assert_eq!(emu.csrs[M_TVEC], 0);
    assert_eq!(emu.registers[5], 7);
    assert_eq!(emu.registers[6], 0x1f);
    assert_eq!(emu.registers[7], (2 << 5) | 0x1c);
    assert_eq!(emu.csrs[FCSR], (2 << 5) | 0x1c);
}

#[test]
fn read_only_csr_can_be_read_not_written() {
    let mut emu = machine(&seq(&[csrrs(1, 0xf14, 0), csrrw(0, 0xf14, 2)]));
    emu.initialize_csrs();
    emu.csrs[M_TVEC] = 0x100;
    emu.step(NO_FP);
    assert_eq!(emu.registers[1], 0);
    assert_eq!(emu.pc, 4);
    emu.step(NO_FP);
    assert_eq!(emu.csrs[M_CAUSE], 2);
    assert_eq!(emu.pc, 0x100);
}

#[test]
fn store_conditional_needs_a_reservation() {
    let lr = r(0b00010_00, 0, 1, 2, 2, 0x2f);
    let sc = r(0b00011_00, 3, 1, 2, 4, 0x2f);
    let mut emu = machine(&seq(&[sc, lr, sc, sc]));
    emu.registers[1] = 0x800;
    emu.registers[3] = 0x55;
    assert!(emu.save_memory_32bit(0x800, 0x8000_0001));
    emu.step(NO_FP);
    assert_eq!(emu.registers[4], 1);
    assert_eq!(emu.load_memory_32bit(0x800), Some(0x8000_0001));
    emu.step(NO_FP);
    assert_eq!(emu.registers[2], 0xffff_ffff_8000_0001);
    assert_eq!(emu.preserved_memory, Some((0x800, 0x804)));
    emu.step(NO_FP);
    assert_eq!(emu.registers[4], 0);
    assert_eq!(emu.load_memory_32bit(0x800), Some(0x55));
    assert!(emu.preserved_memory.is_none());
    emu.registers[3] = 0x66;
    emu.step(NO_FP);
    assert_eq!(emu.registers[4], 1);
    assert_eq!(emu.load_memory_32bit(0x800), Some(0x55));
}

#[test]
fn atomic_memory_operations() {
    let amo = |f5: u32, f3: u32, rd: u32| r(f5 << 2, 2, 1, f3, rd, 0x2f);
    let mut emu = machine(&seq(&[
        amo(0x00, 2, 3),  // amoadd.w
        amo(0x14, 2, 4),  // amomax.w
        amo(0x18, 2, 5),  // amominu.w
        amo(0x01, 3, 6),  // amoswap.d
        amo(0x10, 3, 7),  // amomin.d
    ]));
    emu.registers[1] = 0x800;
    emu.registers[2] = 0xffff_fffe; // -2 as a word
    assert!(emu.save_memory_64bit(0x800, 5));
    emu.step(NO_FP);
    assert_eq!(emu.registers[3], 5);
    assert_eq!(emu.load_memory_32bit(0x800), Some(3));
    emu.step(NO_FP);
    assert_eq!(emu.registers[4], 3);
    assert_eq!(emu.load_memory_32bit(0x800), Some(3));
    emu.step(NO_FP);
    assert_eq!(emu.registers[5], 3);
    assert_eq!(emu.load_memory_32bit(0x800), Some(3));
    emu.step(NO_FP);
    assert_eq!(emu.registers[6], 3);
    assert_eq!(emu.load_memory_64bit(0x800), Some(0xffff_fffe));
    emu.registers[2] = (-9i64) as u64;
    emu.step(NO_FP);
    assert_eq!(emu.registers[7], 0xffff_fffe);
    assert_eq!(emu.load_memory_64bit(0x800), Some((-9i64) as u64));
}

#[test]
fn unknown_opcode_is_illegal() {
    let mut emu = machine(&seq(&[0x0000_007f]));
    emu.csrs[M_TVEC] = 0x301; // vectored mode, still the base for exceptions
    emu.step(NO_FP);
    assert_eq!(emu.csrs[M_CAUSE], 2);
    assert_eq!(emu.pc, 0x300);
    assert_eq!(emu.mode, MachineMode::M);
}

#[test]
fn fetch_past_memory_is_illegal() {
    let mut emu = Rv64SGEmulator::new(0x3ffe, 0, 0x4000, &[]);
    emu.csrs[M_TVEC] = 0x10;
    emu.step(NO_FP);
    assert_eq!(emu.csrs[M_CAUSE], 2);
    assert_eq!(emu.csrs[M_EPC], 0x3ffe);
    assert_eq!(emu.pc, 0x10);
}

#[test]
fn float_moves_and_sign_injection() {
    let mut emu = machine(&seq(&[
        r(0x78, 0, 1, 0, 1, 0x53),  // fmv.w.x f1, x1
        r(0x70, 0, 1, 0, 2, 0x53),  // fmv.x.w x2, f1
        r(0x10, 1, 1, 1, 3, 0x53),  // fsgnjn.s f3, f1, f1
        r(0x10, 4, 1, 0, 5, 0x53),  // fsgnj.s f5, f1, f4 (f4 not boxed: NaN, sign +)
        r(0x79, 0, 6, 0, 6, 0x53),  // fmv.d.x f6, x6
        r(0x11, 6, 6, 2, 7, 0x53),  // fsgnjx.d f7, f6, f6
        r(0x71, 0, 7, 0, 8, 0x53),  // fmv.x.d x8, f7
    ]));
    emu.registers[1] = 0xbf80_0000; // -1.0f
    emu.registers[6] = 0xc000_0000_0000_0000; // -2.0
    emu.f_registers[4] = 0x8000_0000;
    steps(&mut emu, 7);
    assert_eq!(emu.f_registers[1], 0xffff_ffff_bf80_0000);
    assert_eq!(emu.registers[2], 0xffff_ffff_bf80_0000);
    assert_eq!(emu.f_registers[3], 0xffff_ffff_3f80_0000);
    assert_eq!(emu.f_registers[5], 0xffff_ffff_3f80_0000);
    assert_eq!(emu.registers[8], 0x4000_0000_0000_0000);
}

#[test]
fn float_classification() {
    let fclass_s = r(0x70, 0, 1, 1, 2, 0x53);
    let fclass_d = r(0x71, 0, 1, 1, 2, 0x53);
    let cases_s: [(u64, u64); 6] = [
        (0xffff_ffff_ff80_0000, 0x1),
        (0xffff_ffff_0000_0000, 0x10),
        (0xffff_ffff_8000_0001, 0x4),
        (0xffff_ffff_7fc0_0000, 0x200),
        (0xffff_ffff_7f80_0001, 0x100),
        (0x0000_0000_3f80_0000, 0x200),
    ];
    for (cell, class) in cases_s {
        let mut emu = machine(&seq(&[fclass_s]));
        emu.f_registers[1] = cell;
        emu.step(NO_FP);
        assert_eq!(emu.registers[2], class);
    }
    let cases_d: [(u64, u64); 4] = [
        (0x7ff0_0000_0000_0000, 0x80),
        (0x8000_0000_0000_0000, 0x8),
        (0x3ff0_0000_0000_0000, 0x40),
        (0xbff0_0000_0000_0000, 0x2),
    ];
    for (cell, class) in cases_d {
        let mut emu = machine(&seq(&[fclass_d]));
        emu.f_registers[1] = cell;
        emu.step(NO_FP);
        assert_eq!(emu.registers[2], class);
    }
}

#[test]
fn float_loads_and_stores() {
    let mut emu = machine(&seq(&[
        i(0, 1, 2, 1, 0x07),    // flw f1, 0(x1)
        i(8, 1, 3, 2, 0x07),    // fld f2, 8(x1)
        s(16, 1, 1, 2, 0x27),   // fsw f1, 16(x1)
        s(24, 2, 1, 3, 0x27),   // fsd f2, 24(x1)
    ]));
    emu.registers[1] = 0x800;
    assert!(emu.save_memory_32bit(0x800, 0x4049_0fdb));
    assert!(emu.save_memory_64bit(0x808, 0x4009_21fb_5444_2d18));
    steps(&mut emu, 4);
    assert_eq!(emu.f_registers[1], 0xffff_ffff_4049_0fdb);
    assert_eq!(emu.f_registers[2], 0x4009_21fb_5444_2d18);
    assert_eq!(emu.load_memory_64bit(0x810), Some(0x4049_0fdb));
    assert_eq!(emu.load_memory_64bit(0x818), Some(0x4009_21fb_5444_2d18));
}

#[test]
fn float_add_asks_and_commits() {
    // fadd.s f3, f1, f2 with the dynamic rounding mode
    let mut emu = machine(&seq(&[r(0x00, 2, 1, 7, 3, 0x53)]));
    emu.f_registers[1] = 0xffff_ffff_3f80_0000;
    emu.f_registers[2] = 0x0000_0000_4000_0000; // not boxed: reads as the canonical NaN
    emu.csrs[FCSR] = 1 << 5; // frm = toward zero
    let req = emu.fp_request().unwrap();
    assert_eq!(
        req,
        FpRequest { op: FpOp::Add, double: false, a: 0x3f80_0000, b: 0x7fc0_0000, c: 0, rm: 1 }
    );
    emu.step(FpResult { bits: 0x7fc0_0000, flags: 0x10 });
    assert_eq!(emu.f_registers[3], 0xffff_ffff_7fc0_0000);
    assert_eq!(emu.csrs[FCSR], (1 << 5) | 0x10);
    assert_eq!(emu.pc, 4);
}

#[test]
fn float_invalid_rounding_mode_is_illegal() {
    let mut emu = machine(&seq(&[r(0x01, 2, 1, 5, 3, 0x53)]));
    emu.csrs[M_TVEC] = 0x40;
    assert!(emu.fp_request().is_none());
    emu.step(NO_FP);
    assert_eq!(emu.csrs[M_CAUSE], 2);
    assert_eq!(emu.pc, 0x40);
    let mut emu = machine(&seq(&[r(0x01, 2, 1, 7, 3, 0x53)]));
    emu.csrs[FCSR] = 6 << 5;
    assert!(emu.fp_request().is_none());
}

#[test]
fn fused_multiply_add_negations() {
    let w = |op: u32| (4 << 27) | (1 << 25) | (2 << 20) | (1 << 15) | (0 << 12) | (5 << 7) | op;
    let cases = [(0x43, false, false), (0x47, false, true), (0x4b, true, false), (0x4f, true, true)];
    for (op, na, nc) in cases {
        let mut emu = machine(&seq(&[w(op)]));
        emu.f_registers[1] = 0x3ff0_0000_0000_0000;
        emu.f_registers[2] = 0x4000_0000_0000_0000;
        emu.f_registers[4] = 0x4008_0000_0000_0000;
        let req = emu.fp_request().unwrap();
        let sign = 0x8000_0000_0000_0000u64;
        assert_eq!(req.op, FpOp::MulAdd);
        assert!(req.double);
        assert_eq!(req.a, 0x3ff0_0000_0000_0000 | if na { sign } else { 0 });
        assert_eq!(req.b, 0x4000_0000_0000_0000);
        assert_eq!(req.c, 0x4008_0000_0000_0000 | if nc { sign } else { 0 });
        emu.step(FpResult { bits: 0x4014_0000_0000_0000, flags: 0 });
        assert_eq!(emu.f_registers[5], 0x4014_0000_0000_0000);
    }
}

#[test]
fn float_min_max_follow_min_num() {
    let fmin = r(0x14, 2, 1, 0, 3, 0x53);
    let fmax = r(0x14, 2, 1, 1, 3, 0x53);
    let run_one = |w: u32, a: u64, bv: u64, lt: bool| {
        let mut emu = machine(&seq(&[w]));
        emu.f_registers[1] = a;
        emu.f_registers[2] = bv;
        let req = emu.fp_request().unwrap();
        assert_eq!(req.op, FpOp::Lt);
        emu.step(FpResult { bits: lt as u64, flags: 0 });
        (emu.f_registers[3], emu.csrs[FCSR])
    };
    let neg0 = 0xffff_ffff_8000_0000;
    let pos0 = 0xffff_ffff_0000_0000;
    assert_eq!(run_one(fmin, pos0, neg0, false), (neg0, 0));
    assert_eq!(run_one(fmax, neg0, pos0, true), (pos0, 0));
    let one = 0xffff_ffff_3f80_0000;
    let qnan = 0xffff_ffff_7fc0_0000;
    let snan = 0xffff_ffff_7f80_0001;
    assert_eq!(run_one(fmin, qnan, one, false), (one, 0));
    assert_eq!(run_one(fmax, one, snan, false), (one, 0x10));
    assert_eq!(run_one(fmin, qnan, snan, false), (0xffff_ffff_7fc0_0000, 0x10));
    let two = 0xffff_ffff_4000_0000;
    assert_eq!(run_one(fmin, one, two, true), (one, 0));
    assert_eq!(run_one(fmax, one, two, true), (two, 0));
}

#[test]
fn float_compare_and_convert_commit() {
    let mut emu = machine(&seq(&[
        r(0x51, 2, 1, 2, 3, 0x53), // feq.d x3, f1, f2
        r(0x60, 0, 1, 1, 4, 0x53), // fcvt.w.s x4, f1, rtz
        r(0x69, 2, 5, 0, 6, 0x53), // fcvt.d.l f6, x5, rne
        r(0x20, 1, 6, 0, 7, 0x53), // fcvt.s.d f7, f6
    ]));
    emu.registers[5] = (-3i64) as u64;
    let req = emu.fp_request().unwrap();
    assert_eq!(req.op, FpOp::Eq);
    emu.step(FpResult { bits: 1, flags: 0 });
    assert_eq!(emu.registers[3], 1);
    let req = emu.fp_request().unwrap();
    assert_eq!((req.op, req.rm), (FpOp::ToI32, 1));
    emu.step(FpResult { bits: 0xffff_fff6, flags: 1 });
    assert_eq!(emu.registers[4] as i64, -10);
    assert_eq!(emu.csrs[FCSR], 1);
    let req = emu.fp_request().unwrap();
    assert_eq!((req.op, req.double, req.a), (FpOp::FromI64, true, (-3i64) as u64));
    emu.step(FpResult { bits: 0xc008_0000_0000_0000, flags: 0 });
    assert_eq!(emu.f_registers[6], 0xc008_0000_0000_0000);
    let req = emu.fp_request().unwrap();
    assert_eq!((req.op, req.a), (FpOp::ToSingle, 0xc008_0000_0000_0000));
    emu.step(FpResult { bits: 0xc040_0000, flags: 0 });
    assert_eq!(emu.f_registers[7], 0xffff_ffff_c040_0000);
}

#[test]
fn integer_instructions_ask_for_nothing() {
    let emu = machine(&seq(&[addi(1, 0, 1)]));
    assert!(emu.fp_request().is_none());
}

#[test]
fn single_division_and_square_root_are_requested() {
    let mut emu = machine(&seq(&[
        r(0x0c, 2, 1, 0, 3, 0x53), // fdiv.s f3, f1, f2, rne
        r(0x2c, 0, 1, 4, 4, 0x53), // fsqrt.s f4, f1, rmm
        r(0x21, 0, 4, 0, 5, 0x53), // fcvt.d.s f5, f4
    ]));
    emu.f_registers[1] = 0xffff_ffff_4080_0000; // 4.0f
    emu.f_registers[2] = 0xffff_ffff_4000_0000; // 2.0f
    let req = emu.fp_request().unwrap();
    assert_eq!(req, FpRequest { op: FpOp::Div, double: false, a: 0x4080_0000, b: 0x4000_0000, c: 0, rm: 0 });
    emu.step(FpResult { bits: 0x4000_0000, flags: 0 });
    assert_eq!(emu.f_registers[3], 0xffff_ffff_4000_0000);
    let req = emu.fp_request().unwrap();
    assert_eq!((req.op, req.double, req.a, req.rm), (FpOp::Sqrt, false, 0x4080_0000, 4));
    emu.step(FpResult { bits: 0x4000_0000, flags: 0 });
    assert_eq!(emu.f_registers[4], 0xffff_ffff_4000_0000);
    let req = emu.fp_request().unwrap();
    assert_eq!((req.op, req.double, req.a), (FpOp::ToDouble, false, 0x4000_0000));
    emu.step(FpResult { bits: 0x4000_0000_0000_0000, flags: 0 });
    assert_eq!(emu.f_registers[5], 0x4000_0000_0000_0000);
}

#[test]
fn single_results_are_boxed_whatever_comes_back() {
    let mut emu = machine(&seq(&[r(0x08, 2, 1, 0, 3, 0x53)])); // fmul.s
    emu.step(FpResult { bits: 0x1234_5678_9abc_def0, flags: 0 });
    assert_eq!(emu.f_registers[3] >> 32, 0xffff_ffff);
    assert_eq!(emu.f_registers[3] & 0xffff_ffff, 0x9abc_def0);
}
