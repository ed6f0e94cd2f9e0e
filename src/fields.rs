//! Field decoders for 32-bit (and 16-bit compressed) instruction words,
//! sign extension and NaN-boxing helpers.
use vstd::prelude::*;
use vstd::wrapping::u64_specs;

verus! {

/// The little-endian 32-bit word held by the first four bytes.
pub open spec fn word_of(b: Seq<u8>) -> u32 {
    (b[0] as u32) | ((b[1] as u32) << 8u32) | ((b[2] as u32) << 16u32) | ((b[3] as u32) << 24u32)
}

/// The little-endian 16-bit parcel held by the first two bytes.
pub open spec fn half_of(b: Seq<u8>) -> u32 {
    (b[0] as u32) | ((b[1] as u32) << 8u32)
}

pub open spec fn rd_field(w: u32) -> u32 { (w >> 7u32) & 0x1f }
pub open spec fn funct3_field(w: u32) -> u32 { (w >> 12u32) & 0x7 }
pub open spec fn rs1_field(w: u32) -> u32 { (w >> 15u32) & 0x1f }
pub open spec fn rs2_field(w: u32) -> u32 { (w >> 20u32) & 0x1f }
pub open spec fn rs3_field(w: u32) -> u32 { w >> 27u32 }
pub open spec fn funct7_field(w: u32) -> u32 { w >> 25u32 }
pub open spec fn opcode_field(w: u32) -> u32 { w & 0x7f }
pub open spec fn shamt_field(w: u32) -> u32 { (w >> 20u32) & 0x3f }
pub open spec fn imm_i_field(w: u32) -> u32 { w >> 20u32 }
pub open spec fn imm_u_field(w: u32) -> u32 { w & 0xffff_f000 }
pub open spec fn zimm_field(w: u32) -> u32 { (w >> 15u32) & 0x1f }

/// S-format immediate: `word[31:25] ‖ word[11:7]`.
pub open spec fn imm_s_field(w: u32) -> u32 {
    ((w >> 20u32) & 0xfe0) | ((w >> 7u32) & 0x1f)
}

/// B-format immediate: `word[31] ‖ word[7] ‖ word[30:25] ‖ word[11:8] ‖ 0`.
pub open spec fn imm_b_field(w: u32) -> u32 {
    ((w >> 19u32) & 0x1000) | ((w << 4u32) & 0x800) | ((w >> 20u32) & 0x7e0) | ((w >> 7u32) & 0x1e)
}

/// J-format immediate: `word[31] ‖ word[19:12] ‖ word[20] ‖ word[30:21] ‖ 0`.
pub open spec fn imm_j_field(w: u32) -> u32 {
    ((w >> 11u32) & 0x10_0000) | (w & 0xf_f000) | ((w >> 9u32) & 0x800) | ((w >> 20u32) & 0x7fe)
}

/// Sign extension of the low `k` bits: with `m = 1 << (k - 1)`, `(v ^ m) - m` modulo 2^64.
pub open spec fn sext(v: u64, k: u64) -> u64
    recommends
        1 <= k <= 64,
{
    u64_specs::wrapping_sub(v ^ (1u64 << (k - 1) as u64), 1u64 << (k - 1) as u64)
}

/// The mask of the low `k` bits.
pub open spec fn low_mask(k: u64) -> u64 {
    if k >= 64 {
        u64::MAX
    } else {
        ((1u64 << k) - 1) as u64
    }
}

/// Sign-extending from `k` bits and then truncating to `k` bits gives back the low `k` bits.
pub proof fn lemma_sext_truncate(v: u64, k: u64)
    requires
        1 <= k <= 64,
    ensures
        sext(v, k) & low_mask(k) == v & low_mask(k),
{
    assert(sext(v, k) & low_mask(k) == v & low_mask(k)) by (bit_vector)
        requires
            1 <= k <= 64,
    ;
}

/// On a value that fits in `k` bits, sign extension keeps it when bit `k - 1` is clear
/// and fills every bit above `k - 1` with ones when it is set.
pub proof fn lemma_sext_fills_high_bits(v: u64, k: u64)
    requires
        1 <= k <= 63,
        v <= low_mask(k),
    ensures
        v & (1u64 << (k - 1) as u64) == 0 ==> sext(v, k) == v,
        v & (1u64 << (k - 1) as u64) != 0 ==> sext(v, k) == v | !low_mask(k),
{
    assert(v & (1u64 << (k - 1) as u64) == 0 ==> sext(v, k) == v) by (bit_vector)
        requires
            1 <= k <= 63,
            v <= low_mask(k),
    ;
    assert(v & (1u64 << (k - 1) as u64) != 0 ==> sext(v, k) == v | !low_mask(k)) by (bit_vector)
        requires
            1 <= k <= 63,
            v <= low_mask(k),
    ;
}

pub proof fn lemma_and_le(x: u32, m: u32)
    by (bit_vector)
    ensures
        x & m <= m,
{
}

pub proof fn lemma_shr_bounds(x: u32)
    by (bit_vector)
    ensures
        x >> 27u32 < 32,
        x >> 25u32 < 128,
        x >> 20u32 < 4096,
{
}

/// The instruction word assembled from its four little-endian bytes.
pub fn instruction_word(instruction: &Vec<u8>) -> (r: u32)
    requires
        instruction@.len() >= 4,
    ensures
        r == word_of(instruction@),
{
    (instruction[0] as u32) | ((instruction[1] as u32) << 8u32) | ((instruction[2] as u32) << 16u32)
        | ((instruction[3] as u32) << 24u32)
}

fn instruction_half(instruction: &Vec<u8>) -> (r: u32)
    requires
        instruction@.len() >= 2,
    ensures
        r == half_of(instruction@),
{
    (instruction[0] as u32) | ((instruction[1] as u32) << 8u32)
}

/// `rd = word[11:7]`.
pub fn extract_rd(instruction: &Vec<u8>) -> (r: usize)
    requires
        instruction@.len() >= 4,
    ensures
        r == rd_field(word_of(instruction@)),
        r < 32,
{
    let w = instruction_word(instruction);
    proof { lemma_and_le(w >> 7u32, 0x1f); }
    ((w >> 7u32) & 0x1f) as usize
}

/// `rs1 = word[19:15]`.
pub fn extract_rs1(instruction: &Vec<u8>) -> (r: usize)
    requires
        instruction@.len() >= 4,
    ensures
        r == rs1_field(word_of(instruction@)),
        r < 32,
{
    let w = instruction_word(instruction);
    proof { lemma_and_le(w >> 15u32, 0x1f); }
    ((w >> 15u32) & 0x1f) as usize
}

/// `rs2 = word[24:20]`.
pub fn extract_rs2(instruction: &Vec<u8>) -> (r: usize)
    requires
        instruction@.len() >= 4,
    ensures
        r == rs2_field(word_of(instruction@)),
        r < 32,
{
    let w = instruction_word(instruction);
    proof { lemma_and_le(w >> 20u32, 0x1f); }
    ((w >> 20u32) & 0x1f) as usize
}

/// `rs3 = word[31:27]`.
pub fn extract_rs3(instruction: &Vec<u8>) -> (r: usize)
    requires
        instruction@.len() >= 4,
    ensures
        r == rs3_field(word_of(instruction@)),
        r < 32,
{
    let w = instruction_word(instruction);
    proof { lemma_shr_bounds(w); }
    (w >> 27u32) as usize
}

/// `funct3 = word[14:12]`.
pub fn extract_funct3(instruction: &Vec<u8>) -> (r: usize)
    requires
        instruction@.len() >= 4,
    ensures
        r == funct3_field(word_of(instruction@)),
        r < 8,
{
    let w = instruction_word(instruction);
    proof { lemma_and_le(w >> 12u32, 0x7); }
    ((w >> 12u32) & 0x7) as usize
}

/// `funct7 = word[31:25]`.
pub fn extract_funct7(instruction: &Vec<u8>) -> (r: usize)
    requires
        instruction@.len() >= 4,
    ensures
        r == funct7_field(word_of(instruction@)),
        r < 128,
{
    let w = instruction_word(instruction);
    proof { lemma_shr_bounds(w); }
    (w >> 25u32) as usize
}

/// `csr = word[31:20]`.
pub fn extract_csr(instruction: &Vec<u8>) -> (r: usize)
    requires
        instruction@.len() >= 4,
    ensures
        r == imm_i_field(word_of(instruction@)),
        r < 4096,
{
    extract_imm_11_0(instruction) as usize
}

/// The I-format immediate `word[31:20]`, not yet sign-extended.
pub fn extract_imm_11_0(instruction: &Vec<u8>) -> (r: u64)
    requires
        instruction@.len() >= 4,
    ensures
        r == imm_i_field(word_of(instruction@)),
        r < 4096,
{
    let w = instruction_word(instruction);
    proof { lemma_shr_bounds(w); }
    (w >> 20u32) as u64
}

/// The U-format immediate `word[31:12] ‖ 0×12`, not yet sign-extended.
pub fn extract_imm_31_12(instruction: &Vec<u8>) -> (r: u64)
    requires
        instruction@.len() >= 4,
    ensures
        r == imm_u_field(word_of(instruction@)),
{
    let w = instruction_word(instruction);
    (w & 0xffff_f000) as u64
}

/// The load and jump-register offset, which is the I-format immediate.
pub fn extract_offset_11_0(instruction: &Vec<u8>) -> (r: u64)
    requires
        instruction@.len() >= 4,
    ensures
        r == imm_i_field(word_of(instruction@)),
        r < 4096,
{
    extract_imm_11_0(instruction)
}

/// The S-format store offset `word[31:25] ‖ word[11:7]`.
pub fn extract_offset_11_5_4_0(instruction: &Vec<u8>) -> (r: u64)
    requires
        instruction@.len() >= 4,
    ensures
        r == imm_s_field(word_of(instruction@)),
        r < 4096,
{
    let w = instruction_word(instruction);
    let v = ((w >> 20u32) & 0xfe0) | ((w >> 7u32) & 0x1f);
    assert(((w >> 20u32) & 0xfe0) | ((w >> 7u32) & 0x1f) < 4096) by (bit_vector);
    v as u64
}

/// The B-format branch offset `word[31] ‖ word[7] ‖ word[30:25] ‖ word[11:8] ‖ 0`.
pub fn extract_offset_12_10_5_4_1_11(instruction: &Vec<u8>) -> (r: u64)
    requires
        instruction@.len() >= 4,
    ensures
        r == imm_b_field(word_of(instruction@)),
        r < 8192,
{
    let w = instruction_word(instruction);
    let v = ((w >> 19u32) & 0x1000) | ((w << 4u32) & 0x800) | ((w >> 20u32) & 0x7e0) | ((w >> 7u32)
        & 0x1e);
    assert(((w >> 19u32) & 0x1000) | ((w << 4u32) & 0x800) | ((w >> 20u32) & 0x7e0) | ((w >> 7u32)
        & 0x1e) < 8192) by (bit_vector);
    v as u64
}

/// The J-format jump offset `word[31] ‖ word[19:12] ‖ word[20] ‖ word[30:21] ‖ 0`.
pub fn extract_offset_20_10_1_11_19_12(instruction: &Vec<u8>) -> (r: u64)
    requires
        instruction@.len() >= 4,
    ensures
        r == imm_j_field(word_of(instruction@)),
        r < 0x20_0000,
{
    let w = instruction_word(instruction);
    let v = ((w >> 11u32) & 0x10_0000) | (w & 0xf_f000) | ((w >> 9u32) & 0x800) | ((w >> 20u32)
        & 0x7fe);
    assert(((w >> 11u32) & 0x10_0000) | (w & 0xf_f000) | ((w >> 9u32) & 0x800) | ((w >> 20u32)
        & 0x7fe) < 0x20_0000) by (bit_vector);
    v as u64
}

/// The CSR immediate `zimm = word[19:15]`.
pub fn extract_zimm(instruction: &Vec<u8>) -> (r: u64)
    requires
        instruction@.len() >= 4,
    ensures
        r == zimm_field(word_of(instruction@)),
        r < 32,
{
    let w = instruction_word(instruction);
    proof { lemma_and_le(w >> 15u32, 0x1f); }
    ((w >> 15u32) & 0x1f) as u64
}

/// The shift amount `shamt = word[25:20]`.
pub fn extract_shamt(instruction: &Vec<u8>) -> (r: u64)
    requires
        instruction@.len() >= 4,
    ensures
        r == shamt_field(word_of(instruction@)),
        r < 64,
{
    let w = instruction_word(instruction);
    proof { lemma_and_le(w >> 20u32, 0x3f); }
    ((w >> 20u32) & 0x3f) as u64
}

/// The rounding mode of a floating-point instruction: `funct3`, or `frm` where `funct3` is 7.
pub fn extract_rm(instruction: &Vec<u8>, frm: u64) -> (r: usize)
    requires
        instruction@.len() >= 4,
        frm < 8,
    ensures
        r == (if funct3_field(word_of(instruction@)) == 7 { frm as u32 } else { funct3_field(
            word_of(instruction@),
        ) }),
        r < 8,
{
    let rm = extract_funct3(instruction);
    if rm == 7 {
        frm as usize
    } else {
        rm
    }
}

/// Sign extension from bit `shift` (so from `shift + 1` bits).
pub fn extend_sign_n(value: u64, shift: u64) -> (r: u64)
    requires
        shift < 64,
    ensures
        r == sext(value, (shift + 1) as u64),
{
    let m = 1u64 << shift;
    (value ^ m).wrapping_sub(m)
}

pub fn extend_sign_6bit(value: u64) -> (r: u64)
    ensures
        r == sext(value, 6),
{
    extend_sign_n(value, 5)
}

pub fn extend_sign_8bit(value: u64) -> (r: u64)
    ensures
        r == sext(value, 8),
{
    extend_sign_n(value, 7)
}

pub fn extend_sign_9bit(value: u64) -> (r: u64)
    ensures
        r == sext(value, 9),
{
    extend_sign_n(value, 8)
}

pub fn extend_sign_10bit(value: u64) -> (r: u64)
    ensures
        r == sext(value, 10),
{
    extend_sign_n(value, 9)
}

pub fn extend_sign_12bit(value: u64) -> (r: u64)
    ensures
        r == sext(value, 12),
{
    extend_sign_n(value, 11)
}

pub fn extend_sign_13bit(value: u64) -> (r: u64)
    ensures
        r == sext(value, 13),
{
    extend_sign_n(value, 12)
}

pub fn extend_sign_16bit(value: u64) -> (r: u64)
    ensures
        r == sext(value, 16),
{
    extend_sign_n(value, 15)
}

pub fn extend_sign_18bit(value: u64) -> (r: u64)
    ensures
        r == sext(value, 18),
{
    extend_sign_n(value, 17)
}

pub fn extend_sign_21bit(value: u64) -> (r: u64)
    ensures
        r == sext(value, 21),
{
    extend_sign_n(value, 20)
}

pub fn extend_sign_32bit(value: u64) -> (r: u64)
    ensures
        r == sext(value, 32),
{
    extend_sign_n(value, 31)
}

/// The low 32 bits.
pub fn truncate_top_32bit(value: u64) -> (r: u64)
    ensures
        r == value & 0xffff_ffff,
{
    value & 0xffff_ffff
}

/// The low 16 bits.
pub fn truncate_top_16bit(value: u64) -> (r: u64)
    ensures
        r == value & 0xffff,
{
    value & 0xffff
}

/// Two's-complement sign extension of a 64-bit value to 128 bits.
pub fn extend_sign_128bit(value: u64) -> (r: u128)
    ensures
        r as int == (if value < 0x8000_0000_0000_0000 { value as int } else { value as int
            + 0xffff_ffff_ffff_ffff_0000_0000_0000_0000 }),
{
    if value < 0x8000_0000_0000_0000 {
        value as u128
    } else {
        (value as u128) + 0xffff_ffff_ffff_ffff_0000_0000_0000_0000u128
    }
}

/// Whether a float-register cell holds a NaN-boxed single (bits 63..32 all ones).
pub open spec fn is_boxed(value: u64) -> bool {
    value >> 32u64 == 0xffff_ffff
}

/// Sets bits 63..32 to all ones.
pub fn nan_boxing(value: u64) -> (r: u64)
    ensures
        r == value | 0xffff_ffff_0000_0000,
        is_boxed(r),
        r & 0xffff_ffff == value & 0xffff_ffff,
{
    let r = value | 0xffff_ffff_0000_0000;
    assert((value | 0xffff_ffff_0000_0000u64) >> 32u64 == 0xffff_ffff) by (bit_vector);
    assert((value | 0xffff_ffff_0000_0000u64) & 0xffff_ffff == value & 0xffff_ffff) by (bit_vector);
    r
}

pub fn is_nan_boxing(value: u64) -> (r: bool)
    ensures
        r == is_boxed(value),
{
    (value >> 32u64) == 0xffff_ffff
}

// Compressed (16-bit) instruction fields, read from the first two bytes.

pub open spec fn c_uimm_5_2_7_6_field(h: u32) -> u32 {
    ((h >> 1u32) & 0xc0) | ((h >> 7u32) & 0x3c)
}

/// C.SWSP offset: `uimm[5:2]` from bits 12:9, `uimm[7:6]` from bits 8:7.
pub fn c_extract_uimm_5_2_7_6(instruction: &Vec<u8>) -> (r: u64)
    requires
        instruction@.len() >= 2,
    ensures
        r == c_uimm_5_2_7_6_field(half_of(instruction@)),
{
    let h = instruction_half(instruction);
    (((h >> 1u32) & 0xc0) | ((h >> 7u32) & 0x3c)) as u64
}

pub open spec fn c_uimm_5_3_2_6_field(h: u32) -> u32 {
    ((h << 1u32) & 0x40) | ((h >> 7u32) & 0x38) | ((h >> 4u32) & 0x4)
}

/// C.LW/C.SW offset: `uimm[5:3]` from bits 12:10, `uimm[2]` from bit 6, `uimm[6]` from bit 5.
pub fn c_extract_uimm_5_3_2_6(instruction: &Vec<u8>) -> (r: u64)
    requires
        instruction@.len() >= 2,
    ensures
        r == c_uimm_5_3_2_6_field(half_of(instruction@)),
{
    let h = instruction_half(instruction);
    (((h << 1u32) & 0x40) | ((h >> 7u32) & 0x38) | ((h >> 4u32) & 0x4)) as u64
}

pub open spec fn c_uimm_5_3_8_6_field(h: u32) -> u32 {
    ((h >> 1u32) & 0x1c0) | ((h >> 7u32) & 0x38)
}

/// C.SDSP offset: `uimm[5:3]` from bits 12:10, `uimm[8:6]` from bits 9:7.
pub fn c_extract_uimm_5_3_8_6(instruction: &Vec<u8>) -> (r: u64)
    requires
        instruction@.len() >= 2,
    ensures
        r == c_uimm_5_3_8_6_field(half_of(instruction@)),
{
    let h = instruction_half(instruction);
    (((h >> 1u32) & 0x1c0) | ((h >> 7u32) & 0x38)) as u64
}

pub open spec fn c_uimm_5_4_3_8_6_field(h: u32) -> u32 {
    ((h << 4u32) & 0x1c0) | ((h >> 7u32) & 0x20) | ((h >> 2u32) & 0x18)
}

/// C.LDSP offset: `uimm[5]` from bit 12, `uimm[4:3]` from bits 6:5, `uimm[8:6]` from bits 4:2.
pub fn c_extract_uimm_5_4_3_8_6(instruction: &Vec<u8>) -> (r: u64)
    requires
        instruction@.len() >= 2,
    ensures
        r == c_uimm_5_4_3_8_6_field(half_of(instruction@)),
{
    let h = instruction_half(instruction);
    (((h << 4u32) & 0x1c0) | ((h >> 7u32) & 0x20) | ((h >> 2u32) & 0x18)) as u64
}

pub open spec fn c_uimm_5_4_0_field(h: u32) -> u32 {
    ((h >> 7u32) & 0x20) | ((h >> 2u32) & 0x1f)
}

/// `uimm[5]` from bit 12, `uimm[4:0]` from bits 6:2.
pub fn c_extract_uimm_5_4_0(instruction: &Vec<u8>) -> (r: u64)
    requires
        instruction@.len() >= 2,
    ensures
        r == c_uimm_5_4_0_field(half_of(instruction@)),
{
    let h = instruction_half(instruction);
    (((h >> 7u32) & 0x20) | ((h >> 2u32) & 0x1f)) as u64
}

pub open spec fn c_uimm_5_3_7_6_field(h: u32) -> u32 {
    ((h << 1u32) & 0xc0) | ((h >> 7u32) & 0x38)
}

/// C.LD/C.SD offset: `uimm[5:3]` from bits 12:10, `uimm[7:6]` from bits 6:5.
pub fn c_extract_uimm_5_3_7_6(instruction: &Vec<u8>) -> (r: u64)
    requires
        instruction@.len() >= 2,
    ensures
        r == c_uimm_5_3_7_6_field(half_of(instruction@)),
{
    let h = instruction_half(instruction);
    (((h << 1u32) & 0xc0) | ((h >> 7u32) & 0x38)) as u64
}

pub open spec fn c_uimm_5_4_2_7_6_field(h: u32) -> u32 {
    ((h << 4u32) & 0xc0) | ((h >> 7u32) & 0x20) | ((h >> 2u32) & 0x1c)
}

/// C.LWSP offset: `uimm[5]` from bit 12, `uimm[4:2]` from bits 6:4, `uimm[7:6]` from bits 3:2.
pub fn c_extract_uimm_5_4_2_7_6(instruction: &Vec<u8>) -> (r: u64)
    requires
        instruction@.len() >= 2,
    ensures
        r == c_uimm_5_4_2_7_6_field(half_of(instruction@)),
{
    let h = instruction_half(instruction);
    (((h << 4u32) & 0xc0) | ((h >> 7u32) & 0x20) | ((h >> 2u32) & 0x1c)) as u64
}

pub open spec fn c_uimm_5_4_9_6_2_3_field(h: u32) -> u32 {
    ((h >> 1u32) & 0x3c0) | ((h >> 7u32) & 0x30) | ((h >> 2u32) & 0x8) | ((h >> 4u32) & 0x4)
}

/// C.ADDI4SPN immediate: `[5:4]` from bits 12:11, `[9:6]` from bits 10:7, `[2]` from bit 6, `[3]` from bit 5.
pub fn c_extract_uimm_5_4_9_6_2_3(instruction: &Vec<u8>) -> (r: u64)
    requires
        instruction@.len() >= 2,
    ensures
        r == c_uimm_5_4_9_6_2_3_field(half_of(instruction@)),
{
    let h = instruction_half(instruction);
    (((h >> 1u32) & 0x3c0) | ((h >> 7u32) & 0x30) | ((h >> 2u32) & 0x8) | ((h >> 4u32) & 0x4)) as u64
}

pub open spec fn c_imm_5_4_0_field(h: u32) -> u32 {
    ((h >> 7u32) & 0x20) | ((h >> 2u32) & 0x1f)
}

/// `imm[5]` from bit 12, `imm[4:0]` from bits 6:2, not yet sign-extended.
pub fn c_extract_imm_5_4_0(instruction: &Vec<u8>) -> (r: u64)
    requires
        instruction@.len() >= 2,
    ensures
        r == c_imm_5_4_0_field(half_of(instruction@)),
{
    let h = instruction_half(instruction);
    (((h >> 7u32) & 0x20) | ((h >> 2u32) & 0x1f)) as u64
}

pub open spec fn c_imm_17_16_12_field(h: u32) -> u32 {
    ((h << 5u32) & 0x20000) | ((h << 10u32) & 0x1f000)
}

/// C.LUI immediate: `[17]` from bit 12, `[16:12]` from bits 6:2, not yet sign-extended.
pub fn c_extract_imm_17_16_12(instruction: &Vec<u8>) -> (r: u64)
    requires
        instruction@.len() >= 2,
    ensures
        r == c_imm_17_16_12_field(half_of(instruction@)),
{
    let h = instruction_half(instruction);
    (((h << 5u32) & 0x20000) | ((h << 10u32) & 0x1f000)) as u64
}

pub open spec fn c_imm_9_4_5_8_7_5_field(h: u32) -> u32 {
    ((h >> 3u32) & 0x200) | ((h << 4u32) & 0x180) | ((h << 1u32) & 0x40) | ((h << 3u32) & 0x20) | ((h >> 2u32) & 0x10)
}

/// C.ADDI16SP immediate: `[9]` from bit 12, `[4]` from bit 6, `[6]` from bit 5, `[8:7]` from bits 4:3, `[5]` from bit 2.
pub fn c_extract_imm_9_4_5_8_7_5(instruction: &Vec<u8>) -> (r: u64)
    requires
        instruction@.len() >= 2,
    ensures
        r == c_imm_9_4_5_8_7_5_field(half_of(instruction@)),
{
    let h = instruction_half(instruction);
    (((h >> 3u32) & 0x200) | ((h << 4u32) & 0x180) | ((h << 1u32) & 0x40) | ((h << 3u32) & 0x20) | ((h >> 2u32) & 0x10)) as u64
}

pub open spec fn c_offset_8_4_3_7_6_2_1_5_field(h: u32) -> u32 {
    ((h >> 4u32) & 0x100) | ((h << 1u32) & 0xc0) | ((h << 3u32) & 0x20) | ((h >> 7u32) & 0x18) | ((h >> 2u32) & 0x6)
}

/// C.BEQZ/C.BNEZ offset: `[8|4:3]` from bits 12:10, `[7:6|2:1|5]` from bits 6:2.
pub fn c_extract_offset_8_4_3_7_6_2_1_5(instruction: &Vec<u8>) -> (r: u64)
    requires
        instruction@.len() >= 2,
    ensures
        r == c_offset_8_4_3_7_6_2_1_5_field(half_of(instruction@)),
{
    let h = instruction_half(instruction);
    (((h >> 4u32) & 0x100) | ((h << 1u32) & 0xc0) | ((h << 3u32) & 0x20) | ((h >> 7u32) & 0x18) | ((h >> 2u32) & 0x6)) as u64
}

pub open spec fn c_offset_11_4_9_8_10_6_7_3_1_5_field(h: u32) -> u32 {
    ((h >> 1u32) & 0x800) | ((h << 2u32) & 0x400) | ((h >> 1u32) & 0x300) | ((h << 1u32) & 0x80) | ((h >> 1u32) & 0x40) | ((h << 3u32) & 0x20) | ((h >> 7u32) & 0x10) | ((h >> 2u32) & 0xe)
}

/// C.J/C.JAL offset: `[11|4|9:8|10|6|7|3:1|5]` from bits 12:2.
pub fn c_extract_offset_11_4_9_8_10_6_7_3_1_5(instruction: &Vec<u8>) -> (r: u64)
    requires
        instruction@.len() >= 2,
    ensures
        r == c_offset_11_4_9_8_10_6_7_3_1_5_field(half_of(instruction@)),
{
    let h = instruction_half(instruction);
    (((h >> 1u32) & 0x800) | ((h << 2u32) & 0x400) | ((h >> 1u32) & 0x300) | ((h << 1u32) & 0x80) | ((h >> 1u32) & 0x40) | ((h << 3u32) & 0x20) | ((h >> 7u32) & 0x10) | ((h >> 2u32) & 0xe)) as u64
}

pub open spec fn c_2_4_rd_field(h: u32) -> u32 {
    (h >> 2u32) & 0x7
}

/// The compressed `rd'` field, bits 4:2.
pub fn c_extract_2_4_rd(instruction: &Vec<u8>) -> (r: usize)
    requires
        instruction@.len() >= 2,
    ensures
        r == c_2_4_rd_field(half_of(instruction@)),
        r < 8,
{
    let h = instruction_half(instruction);
    proof { lemma_and_le(h >> 2u32, 0x7); }
    ((h >> 2u32) & 0x7) as usize
}

pub open spec fn c_7_9_rs1_field(h: u32) -> u32 {
    (h >> 7u32) & 0x7
}

/// The compressed `rs1'` field, bits 9:7.
pub fn c_extract_7_9_rs1(instruction: &Vec<u8>) -> (r: usize)
    requires
        instruction@.len() >= 2,
    ensures
        r == c_7_9_rs1_field(half_of(instruction@)),
        r < 8,
{
    let h = instruction_half(instruction);
    proof { lemma_and_le(h >> 7u32, 0x7); }
    ((h >> 7u32) & 0x7) as usize
}

pub open spec fn c_7_9_rd_field(h: u32) -> u32 {
    (h >> 7u32) & 0x7
}

/// The compressed `rd'` field at bits 9:7.
pub fn c_extract_7_9_rd(instruction: &Vec<u8>) -> (r: usize)
    requires
        instruction@.len() >= 2,
    ensures
        r == c_7_9_rd_field(half_of(instruction@)),
        r < 8,
{
    c_extract_7_9_rs1(instruction)
}

pub open spec fn c_7_11_rs1_field(h: u32) -> u32 {
    (h >> 7u32) & 0x1f
}

/// The compressed full `rs1`/`rd` field, bits 11:7.
pub fn c_extract_7_11_rs1(instruction: &Vec<u8>) -> (r: usize)
    requires
        instruction@.len() >= 2,
    ensures
        r == c_7_11_rs1_field(half_of(instruction@)),
        r < 32,
{
    let h = instruction_half(instruction);
    proof { lemma_and_le(h >> 7u32, 0x1f); }
    ((h >> 7u32) & 0x1f) as usize
}

pub open spec fn c_2_4_rs2_field(h: u32) -> u32 {
    (h >> 2u32) & 0x7
}

/// The compressed `rs2'` field, bits 4:2.
pub fn c_extract_2_4_rs2(instruction: &Vec<u8>) -> (r: usize)
    requires
        instruction@.len() >= 2,
    ensures
        r == c_2_4_rs2_field(half_of(instruction@)),
        r < 8,
{
    c_extract_2_4_rd(instruction)
}

pub open spec fn c_2_6_rs2_field(h: u32) -> u32 {
    (h >> 2u32) & 0x1f
}

/// The compressed full `rs2` field, bits 6:2.
pub fn c_extract_2_6_rs2(instruction: &Vec<u8>) -> (r: usize)
    requires
        instruction@.len() >= 2,
    ensures
        r == c_2_6_rs2_field(half_of(instruction@)),
        r < 32,
{
    let h = instruction_half(instruction);
    proof { lemma_and_le(h >> 2u32, 0x1f); }
    ((h >> 2u32) & 0x1f) as usize
}

} // verus!
