use rv64sg::fields::{
    c_extract_2_4_rd, c_extract_2_6_rs2, c_extract_7_11_rs1, c_extract_7_9_rs1,
    c_extract_imm_17_16_12, c_extract_offset_11_4_9_8_10_6_7_3_1_5, c_extract_uimm_5_3_7_6,
    c_extract_uimm_5_4_9_6_2_3, extend_sign_128bit, extend_sign_12bit, extend_sign_13bit,
    extend_sign_16bit, extend_sign_21bit, extend_sign_32bit, extend_sign_8bit, extend_sign_n,
    extract_csr, extract_funct3, extract_funct7, extract_imm_11_0, extract_imm_31_12,
    extract_offset_11_5_4_0, extract_offset_12_10_5_4_1_11, extract_offset_20_10_1_11_19_12,
    extract_rd, extract_rm, extract_rs1, extract_rs2, extract_rs3, extract_shamt, extract_zimm,
    is_nan_boxing, nan_boxing, truncate_top_16bit, truncate_top_32bit,
};
use rv64sg::machine::MachineMode;

fn bytes(w: u32) -> Vec<u8> {
    w.to_le_bytes().to_vec()
}

#[test]
fn register_fields_of_add() {
    // add x3, x1, x2
    let i = bytes(0x0020_81b3);
    assert_eq!(extract_rd(&i), 3);
    assert_eq!(extract_rs1(&i), 1);
    assert_eq!(extract_rs2(&i), 2);
    assert_eq!(extract_funct3(&i), 0);
    assert_eq!(extract_funct7(&i), 0);
}

#[test]
fn immediate_fields() {
    // addi x5, x6, -1
    let i = bytes(0xfff3_0293);
    assert_eq!(extract_imm_11_0(&i), 0xfff);
    assert_eq!(extend_sign_12bit(extract_imm_11_0(&i)), u64::MAX);
    // csrrs x10, mhartid, x0
    let c = bytes(0xf140_2573);
    assert_eq!(extract_csr(&c), 0xf14);
    assert_eq!(extract_rd(&c), 10);
    // lui x1, 0x80000
    let l = bytes(0x8000_00b7);
    assert_eq!(extract_imm_31_12(&l), 0x8000_0000);
    assert_eq!(extend_sign_32bit(extract_imm_31_12(&l)), 0xffff_ffff_8000_0000);
    // slli x1, x1, 63
    let s = bytes(0x03f0_9093);
    assert_eq!(extract_shamt(&s), 63);
    // csrrwi x0, fcsr, 31 : zimm 31
    let z = bytes(0x003f_d073);
    assert_eq!(extract_zimm(&z), 31);
    // fmadd.s f1, f2, f3, f4 : rs3 = 4
    let f = bytes(0x2031_00c3);
    assert_eq!(extract_rs3(&f), 4);
}

#[test]
fn store_branch_jump_offsets() {
    // sw x2, -4(x1): imm = 0xffc
    let s = bytes(0xfe20_ae23);
    assert_eq!(extract_offset_11_5_4_0(&s), 0xffc);
    // beq x0, x0, -8: imm = 0x1ff8
    let b = bytes(0xfe00_0ce3);
    assert_eq!(extract_offset_12_10_5_4_1_11(&b), 0x1ff8);
    assert_eq!(extend_sign_13bit(extract_offset_12_10_5_4_1_11(&b)), (-8i64) as u64);
    // jal x1, 2048
    let j = bytes(0x0010_00ef);
    assert_eq!(extract_offset_20_10_1_11_19_12(&j), 2048);
    assert_eq!(extend_sign_21bit(0x1f_fffe), (-2i64) as u64);
}

#[test]
fn rounding_mode_field() {
    // fadd.s f1, f2, f3, dyn (funct3 = 7)
    let dynamic = bytes(0x0031_70d3);
    assert_eq!(extract_rm(&dynamic, 3), 3);
    // fadd.s f1, f2, f3, rtz (funct3 = 1)
    let rtz = bytes(0x0031_10d3);
    assert_eq!(extract_rm(&rtz, 3), 1);
}

#[test]
fn sign_extension_widths() {
    assert_eq!(extend_sign_8bit(0x80), 0xffff_ffff_ffff_ff80);
    assert_eq!(extend_sign_8bit(0x7f), 0x7f);
    assert_eq!(extend_sign_16bit(0x8000), 0xffff_ffff_ffff_8000);
    assert_eq!(extend_sign_32bit(0xffff_ffff), u64::MAX);
    assert_eq!(extend_sign_n(0b100, 2), 0xffff_ffff_ffff_fffc);
    assert_eq!(extend_sign_n(0x1234, 63), 0x1234);
    assert_eq!(extend_sign_128bit(u64::MAX), u128::MAX);
    assert_eq!(extend_sign_128bit(5), 5);
}

#[test]
fn sign_extend_then_truncate_keeps_low_bits() {
    for v in [0u64, 1, 0x7ff, 0x800, 0xfff, 0x1234] {
        assert_eq!(extend_sign_12bit(v & 0xfff) & 0xfff, v & 0xfff);
    }
    for v in [0u64, 0x8000_0000, 0xffff_ffff, 0x1234_5678] {
        assert_eq!(truncate_top_32bit(extend_sign_32bit(v)), v);
    }
    assert_eq!(truncate_top_16bit(0x1_2345), 0x2345);
}

#[test]
fn nan_boxing_sets_upper_half() {
    let b = nan_boxing(0x3f80_0000);
    assert_eq!(b, 0xffff_ffff_3f80_0000);
    assert!(is_nan_boxing(b));
    assert!(!is_nan_boxing(0x3f80_0000));
    assert!(!is_nan_boxing(0x7fff_ffff_3f80_0000));
}

#[test]
fn compressed_fields() {
    // c.addi4spn x14, sp, 1020: nzuimm = 0x3fc, rd' = 6
    let h: u16 = (3 << 11) | (0xf << 7) | (1 << 6) | (1 << 5) | (6 << 2);
    let h = h.to_le_bytes().to_vec();
    assert_eq!(c_extract_uimm_5_4_9_6_2_3(&h), 0x3fc);
    assert_eq!(c_extract_2_4_rd(&h), 6);
    // c.ld x9, 248(x10): uimm[5:3] = 7 at bits 12:10, uimm[7:6] = 3 at bits 6:5
    let ld: u16 = (0b011 << 13) | (0b111 << 10) | (2 << 7) | (0b11 << 5) | (1 << 2) | 0b00;
    let ld = ld.to_le_bytes().to_vec();
    assert_eq!(c_extract_uimm_5_3_7_6(&ld), 0xf8);
    assert_eq!(c_extract_7_9_rs1(&ld), 2);
    // c.lui x5, 0x1f: imm[17] = 0, imm[16:12] = 0x1f
    let lui: u16 = (0b011 << 13) | (5 << 7) | (0x1f << 2) | 0b01;
    let lui = lui.to_le_bytes().to_vec();
    assert_eq!(c_extract_imm_17_16_12(&lui), 0x1f000);
    assert_eq!(c_extract_7_11_rs1(&lui), 5);
    assert_eq!(c_extract_2_6_rs2(&lui), 0x1f);
    // c.j with offset 2 (bit 1 of the offset lives at bit 3)
    let j: u16 = (0b101 << 13) | (1 << 3) | 0b01;
    let j = j.to_le_bytes().to_vec();
    assert_eq!(c_extract_offset_11_4_9_8_10_6_7_3_1_5(&j), 2);
}

#[test]
fn machine_mode_levels() {
    assert_eq!(MachineMode::from_u64(0), Some(MachineMode::U));
    assert_eq!(MachineMode::from_u64(1), Some(MachineMode::S));
    assert_eq!(MachineMode::from_u64(3), Some(MachineMode::M));
    assert_eq!(MachineMode::from_u64(2), None);
    assert_eq!(MachineMode::M.to_usize(), 3);
    assert_eq!(MachineMode::U.to_usize(), 0);
}
