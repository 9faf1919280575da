//! Instruction encoders: bit-exact construction of each RV32I format
//! per the base encoding, and proofs that decoding an encoded word
//! reproduces the encoded fields.

use vstd::prelude::*;
use crate::instruction_type::b_imm_of;
use crate::instruction_type::b_umm_of;
use crate::instruction_type::funct3_of;
use crate::instruction_type::funct7_of;
use crate::instruction_type::i_imm_of;
use crate::instruction_type::i_umm_of;
use crate::instruction_type::j_imm_of;
use crate::instruction_type::j_umm_of;
use crate::instruction_type::opcode_of;
use crate::instruction_type::rd_of;
use crate::instruction_type::rs1_of;
use crate::instruction_type::rs2_of;
use crate::instruction_type::s_imm_of;
use crate::instruction_type::s_umm_of;
use crate::instruction_type::shamt_of;
use crate::instruction_type::sign_ext12;
use crate::instruction_type::sign_ext13;
use crate::instruction_type::sign_ext21;

pub mod btype;
pub mod itype;
pub mod jtype;
pub mod pseudo;
pub mod rtype;
pub mod stype;
pub mod utype;

verus! {

// ---------------------------------------------------------------------------
// The seven encodings, as spec functions. Register and sub-opcode
// fields are masked to their widths; immediates are given as 32-bit
// patterns of which only the format's bits are encoded.
// ---------------------------------------------------------------------------

/// R-type: `funct7[31:25] | rs2[24:20] | rs1[19:15] | funct3[14:12] |
/// rd[11:7] | opcode[6:0]` with opcode OP (0x33).
pub open spec fn encode_r_spec(f7: u32, rs2: u32, rs1: u32, f3: u32, rd: u32) -> u32 {
    (f7 << 25) | ((rs2 & 0x1F) << 20) | ((rs1 & 0x1F) << 15) | ((f3 & 0x7) << 12) | ((rd & 0x1F)
        << 7) | 0x33
}

/// I-type: `imm[11:0][31:20] | rs1 | funct3 | rd | opcode`.
pub open spec fn encode_i_spec(op: u32, rd: u32, rs1: u32, f3: u32, imm: u32) -> u32 {
    ((imm & 0xFFF) << 20) | ((rs1 & 0x1F) << 15) | ((f3 & 0x7) << 12) | ((rd & 0x1F) << 7) | op
}

/// S-type: `imm[11:5][31:25] | rs2 | rs1 | funct3 | imm[4:0][11:7] |
/// opcode` with opcode STORE (0x23).
pub open spec fn encode_s_spec(rs1: u32, rs2: u32, f3: u32, imm: u32) -> u32 {
    (((imm >> 5) & 0x7F) << 25) | ((rs2 & 0x1F) << 20) | ((rs1 & 0x1F) << 15) | ((f3 & 0x7) << 12)
        | ((imm & 0x1F) << 7) | 0x23
}

/// B-type: `imm[12][31] | imm[10:5][30:25] | rs2 | rs1 | funct3 |
/// imm[4:1][11:8] | imm[11][7] | opcode` with opcode BRANCH (0x63).
pub open spec fn encode_b_spec(rs1: u32, rs2: u32, f3: u32, imm: u32) -> u32 {
    (((imm >> 12) & 0x1) << 31) | (((imm >> 5) & 0x3F) << 25) | ((rs2 & 0x1F) << 20) | ((rs1
        & 0x1F) << 15) | ((f3 & 0x7) << 12) | (((imm >> 1) & 0xF) << 8) | (((imm >> 11) & 0x1)
        << 7) | 0x63
}

/// U-type: `imm[31:12][31:12] | rd | opcode`, where `imm` holds the
/// 20-bit upper immediate in its low bits.
pub open spec fn encode_u_spec(rd: u32, imm: u32, op: u32) -> u32 {
    ((imm & 0xFFFFF) << 12) | ((rd & 0x1F) << 7) | op
}

/// J-type: `imm[20][31] | imm[10:1][30:21] | imm[11][20] |
/// imm[19:12][19:12] | rd | opcode` with opcode JAL (0x6F).
pub open spec fn encode_j_spec(rd: u32, imm: u32) -> u32 {
    (((imm >> 20) & 0x1) << 31) | (((imm >> 1) & 0x3FF) << 21) | (((imm >> 11) & 0x1) << 20) | ((
    (imm >> 12) & 0xFF) << 12) | ((rd & 0x1F) << 7) | 0x6F
}

// ---------------------------------------------------------------------------
// Round trips: decoding an encoded word reproduces the fields, with
// the immediate truncated to its format's width and sign-extended.
// ---------------------------------------------------------------------------

/// R-type round trip.
pub proof fn lemma_r_round_trip(f7: u32, rs2: u32, rs1: u32, f3: u32, rd: u32)
    by (bit_vector)
    requires
        f7 < 128,
        rs2 < 32,
        rs1 < 32,
        f3 < 8,
        rd < 32,
    ensures
        opcode_of(encode_r_spec(f7, rs2, rs1, f3, rd)) == 0x33,
        rd_of(encode_r_spec(f7, rs2, rs1, f3, rd)) == rd,
        funct3_of(encode_r_spec(f7, rs2, rs1, f3, rd)) == f3,
        rs1_of(encode_r_spec(f7, rs2, rs1, f3, rd)) == rs1,
        rs2_of(encode_r_spec(f7, rs2, rs1, f3, rd)) == rs2,
        funct7_of(encode_r_spec(f7, rs2, rs1, f3, rd)) == f7,
{
}

/// I-type round trip: the immediate comes back truncated to 12 bits
/// and sign-extended.
pub proof fn lemma_i_round_trip(op: u32, rd: u32, rs1: u32, f3: u32, imm: u32)
    by (bit_vector)
    requires
        op < 128,
        rd < 32,
        rs1 < 32,
        f3 < 8,
    ensures
        opcode_of(encode_i_spec(op, rd, rs1, f3, imm)) == op,
        rd_of(encode_i_spec(op, rd, rs1, f3, imm)) == rd,
        funct3_of(encode_i_spec(op, rd, rs1, f3, imm)) == f3,
        rs1_of(encode_i_spec(op, rd, rs1, f3, imm)) == rs1,
        i_umm_of(encode_i_spec(op, rd, rs1, f3, imm)) == imm & 0xFFF,
        i_imm_of(encode_i_spec(op, rd, rs1, f3, imm)) == sign_ext12(imm & 0xFFF),
{
}

/// I-shift round trip: the shift amount and the funct7 selector come
/// back exactly.
pub proof fn lemma_ishift_round_trip(rd: u32, rs1: u32, f3: u32, shamt: u32, f7: u32)
    by (bit_vector)
    requires
        rd < 32,
        rs1 < 32,
        f3 < 8,
        shamt < 32,
        f7 < 128,
    ensures
        opcode_of(encode_i_spec(0x13, rd, rs1, f3, shamt | (f7 << 5))) == 0x13,
        rd_of(encode_i_spec(0x13, rd, rs1, f3, shamt | (f7 << 5))) == rd,
        funct3_of(encode_i_spec(0x13, rd, rs1, f3, shamt | (f7 << 5))) == f3,
        rs1_of(encode_i_spec(0x13, rd, rs1, f3, shamt | (f7 << 5))) == rs1,
        shamt_of(encode_i_spec(0x13, rd, rs1, f3, shamt | (f7 << 5))) == shamt,
        funct7_of(encode_i_spec(0x13, rd, rs1, f3, shamt | (f7 << 5))) == f7,
{
}

/// S-type round trip: the split immediate comes back truncated to 12
/// bits and sign-extended.
pub proof fn lemma_s_round_trip(rs1: u32, rs2: u32, f3: u32, imm: u32)
    by (bit_vector)
    requires
        rs1 < 32,
        rs2 < 32,
        f3 < 8,
    ensures
        opcode_of(encode_s_spec(rs1, rs2, f3, imm)) == 0x23,
        rs1_of(encode_s_spec(rs1, rs2, f3, imm)) == rs1,
        rs2_of(encode_s_spec(rs1, rs2, f3, imm)) == rs2,
        funct3_of(encode_s_spec(rs1, rs2, f3, imm)) == f3,
        s_umm_of(encode_s_spec(rs1, rs2, f3, imm)) == imm & 0xFFF,
        s_imm_of(encode_s_spec(rs1, rs2, f3, imm)) == sign_ext12(imm & 0xFFF),
{
}

/// B-type round trip: the scattered immediate comes back truncated to
/// 13 bits, with bit 0 cleared, and sign-extended.
pub proof fn lemma_b_round_trip(rs1: u32, rs2: u32, f3: u32, imm: u32)
    by (bit_vector)
    requires
        rs1 < 32,
        rs2 < 32,
        f3 < 8,
    ensures
        opcode_of(encode_b_spec(rs1, rs2, f3, imm)) == 0x63,
        rs1_of(encode_b_spec(rs1, rs2, f3, imm)) == rs1,
        rs2_of(encode_b_spec(rs1, rs2, f3, imm)) == rs2,
        funct3_of(encode_b_spec(rs1, rs2, f3, imm)) == f3,
        b_umm_of(encode_b_spec(rs1, rs2, f3, imm)) == imm & 0x1FFE,
        b_imm_of(encode_b_spec(rs1, rs2, f3, imm)) == sign_ext13(imm & 0x1FFE),
{
}

/// U-type round trip: the upper immediate comes back truncated to 20
/// bits and left in place, low 12 bits zero.
pub proof fn lemma_u_round_trip(rd: u32, imm: u32, op: u32)
    by (bit_vector)
    requires
        rd < 32,
        op < 128,
    ensures
        opcode_of(encode_u_spec(rd, imm, op)) == op,
        rd_of(encode_u_spec(rd, imm, op)) == rd,
        crate::instruction_type::u_imm_of(encode_u_spec(rd, imm, op)) == (imm & 0xFFFFF) << 12,
{
}

/// J-type round trip: the scattered immediate comes back truncated to
/// 21 bits, with bit 0 cleared, and sign-extended.
pub proof fn lemma_j_round_trip(rd: u32, imm: u32)
    by (bit_vector)
    requires
        rd < 32,
    ensures
        opcode_of(encode_j_spec(rd, imm)) == 0x6F,
        rd_of(encode_j_spec(rd, imm)) == rd,
        j_umm_of(encode_j_spec(rd, imm)) == imm & 0x1FFFFE,
        j_imm_of(encode_j_spec(rd, imm)) == sign_ext21(imm & 0x1FFFFE),
{
}

} // verus!
