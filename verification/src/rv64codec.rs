//! Round trips through the decoder: hand-assembled bit patterns, one per
//! instruction shape, and proofs that decoding each pattern yields back the
//! tag and fields it was assembled from.

use vstd::prelude::*;
use crate::bitops::sign_ext_spec;
use crate::rv64defs::{DecodedInst, BranchType, LoadStoreWidth, CLoadStoreWidth};
use crate::rv64inst::{decode_spec, imm_i_spec, imm_s_spec, imm_b_spec, imm_u_spec, imm_j_spec,
    rs1_spec, rs2_spec, rd_spec, funct7_spec};
use crate::bitops::get_spec;

verus! {

/// A register-register encoding: `funct7`, two sources, minor opcode, a
/// destination, and the major opcode.
pub open spec fn encode_r(opc: u64, f3: u64, f7: u64, rs1: u64, rs2: u64, rd: u64) -> u64 {
    (f7 << 25) | (rs2 << 20) | (rs1 << 15) | (f3 << 12) | (rd << 7) | opc
}

/// A register-immediate encoding: a 12-bit immediate field over one source.
pub open spec fn encode_i(opc: u64, f3: u64, imm12: u64, rs1: u64, rd: u64) -> u64 {
    (imm12 << 20) | (rs1 << 15) | (f3 << 12) | (rd << 7) | opc
}

/// A store encoding: the 12-bit offset split around the source registers.
pub open spec fn encode_s(opc: u64, f3: u64, imm12: u64, rs1: u64, rs2: u64) -> u64 {
    ((imm12 >> 5) << 25) | (rs2 << 20) | (rs1 << 15) | (f3 << 12) | ((imm12 & 0x1F) << 7) | opc
}

/// A branch encoding: the 13-bit even offset scattered per the base format.
pub open spec fn encode_b(f3: u64, imm: u64, rs1: u64, rs2: u64) -> u64 {
    (((imm >> 12) & 1) << 31) | (((imm >> 5) & 0x3F) << 25) | (rs2 << 20) | (rs1 << 15) | (f3
        << 12) | (((imm >> 1) & 0xF) << 8) | (((imm >> 11) & 1) << 7) | 0b1100011
}

/// An upper-immediate encoding: the high 20 bits in place.
pub open spec fn encode_u(opc: u64, imm: u64, rd: u64) -> u64 {
    (imm & 0xFFFF_F000) | (rd << 7) | opc
}

/// A jump encoding: the 21-bit even offset scattered per the base format.
pub open spec fn encode_j(imm: u64, rd: u64) -> u64 {
    (((imm >> 20) & 1) << 31) | (((imm >> 1) & 0x3FF) << 21) | (((imm >> 11) & 1) << 20) | (((imm
        >> 12) & 0xFF) << 12) | (rd << 7) | 0b1101111
}

/// The low two bits of every full-width major opcode are ones.
proof fn lemma_opcode_consts()
    by (bit_vector)
    ensures
        0b0110011u64 & 3 == 3,
        0b0111011u64 & 3 == 3,
        0b0010011u64 & 3 == 3,
        0b0011011u64 & 3 == 3,
        0b1100111u64 & 3 == 3,
        0b0000011u64 & 3 == 3,
        0b0100011u64 & 3 == 3,
        0b1101111u64 & 3 == 3,
        0b1100011u64 & 3 == 3,
        0b0110111u64 & 3 == 3,
        0b0010111u64 & 3 == 3,
        0b1110011u64 & 3 == 3,
{
}

/// What the decoder's field extractors read off a register-register pattern.
proof fn lemma_r_format(opc: u64, f3: u64, f7: u64, r1: u64, r2: u64, rdn: u64)
    by (bit_vector)
    requires
        opc < 128,
        opc & 3 == 3,
        f3 < 8,
        f7 < 128,
        r1 < 32,
        r2 < 32,
        rdn < 32,
    ensures
        encode_r(opc, f3, f7, r1, r2, rdn) & 3 == 3,
        encode_r(opc, f3, f7, r1, r2, rdn) & 0x7F == opc,
        get_spec(encode_r(opc, f3, f7, r1, r2, rdn), 12, 14) == f3,
        rs1_spec(encode_r(opc, f3, f7, r1, r2, rdn)) == r1,
        rs2_spec(encode_r(opc, f3, f7, r1, r2, rdn)) == r2,
        rd_spec(encode_r(opc, f3, f7, r1, r2, rdn)) == rdn,
        funct7_spec(encode_r(opc, f3, f7, r1, r2, rdn)) == f7,
{
}

/// What the decoder's field extractors read off a register-immediate
/// pattern, including the synthesized immediate.
proof fn lemma_i_format(opc: u64, f3: u64, m: u64, r1: u64, rdn: u64)
    by (bit_vector)
    requires
        opc < 128,
        opc & 3 == 3,
        f3 < 8,
        m < 4096,
        r1 < 32,
        rdn < 32,
    ensures
        encode_i(opc, f3, m, r1, rdn) & 3 == 3,
        encode_i(opc, f3, m, r1, rdn) & 0x7F == opc,
        get_spec(encode_i(opc, f3, m, r1, rdn), 12, 14) == f3,
        rs1_spec(encode_i(opc, f3, m, r1, rdn)) == r1,
        rd_spec(encode_i(opc, f3, m, r1, rdn)) == rdn,
        imm_i_spec(encode_i(opc, f3, m, r1, rdn)) == sign_ext_spec(12, m),
        funct7_spec(encode_i(opc, f3, m, r1, rdn)) == m >> 5,
        get_spec(encode_i(opc, f3, m, r1, rdn), 26, 31) == m >> 6,
        imm_i_spec(encode_i(opc, f3, m, r1, rdn)) & 0x3F == m & 0x3F,
        imm_i_spec(encode_i(opc, f3, m, r1, rdn)) & 0x1F == m & 0x1F,
{
}

/// What the decoder reads off a store pattern.
proof fn lemma_s_format(opc: u64, f3: u64, m: u64, r1: u64, r2: u64)
    by (bit_vector)
    requires
        opc < 128,
        opc & 3 == 3,
        f3 < 8,
        m < 4096,
        r1 < 32,
        r2 < 32,
    ensures
        encode_s(opc, f3, m, r1, r2) & 3 == 3,
        encode_s(opc, f3, m, r1, r2) & 0x7F == opc,
        get_spec(encode_s(opc, f3, m, r1, r2), 12, 14) == f3,
        rs1_spec(encode_s(opc, f3, m, r1, r2)) == r1,
        rs2_spec(encode_s(opc, f3, m, r1, r2)) == r2,
        imm_s_spec(encode_s(opc, f3, m, r1, r2)) == sign_ext_spec(12, m),
{
}

/// What the decoder reads off a branch pattern.
proof fn lemma_b_format(f3: u64, m: u64, r1: u64, r2: u64)
    by (bit_vector)
    requires
        f3 < 8,
        m < 0x2000,
        m & 1 == 0,
        r1 < 32,
        r2 < 32,
    ensures
        encode_b(f3, m, r1, r2) & 3 == 3,
        encode_b(f3, m, r1, r2) & 0x7F == 0b1100011,
        get_spec(encode_b(f3, m, r1, r2), 12, 14) == f3,
        rs1_spec(encode_b(f3, m, r1, r2)) == r1,
        rs2_spec(encode_b(f3, m, r1, r2)) == r2,
        imm_b_spec(encode_b(f3, m, r1, r2)) == sign_ext_spec(13, m),
{
}

/// What the decoder reads off an upper-immediate pattern.
proof fn lemma_u_format(opc: u64, m: u64, rdn: u64)
    by (bit_vector)
    requires
        opc < 128,
        opc & 3 == 3,
        m & 0xFFF == 0,
        m < 0x1_0000_0000,
        rdn < 32,
    ensures
        encode_u(opc, m, rdn) & 3 == 3,
        encode_u(opc, m, rdn) & 0x7F == opc,
        rd_spec(encode_u(opc, m, rdn)) == rdn,
        imm_u_spec(encode_u(opc, m, rdn)) == sign_ext_spec(32, m),
{
}

/// What the decoder reads off a jump pattern.
proof fn lemma_j_format(m: u64, rdn: u64)
    by (bit_vector)
    requires
        m < 0x20_0000,
        m & 1 == 0,
        rdn < 32,
    ensures
        encode_j(m, rdn) & 3 == 3,
        encode_j(m, rdn) & 0x7F == 0b1101111,
        rd_spec(encode_j(m, rdn)) == rdn,
        imm_j_spec(encode_j(m, rdn)) == sign_ext_spec(21, m),
{
}

/// Decoding a hand-assembled register-register pattern gives back its tag
/// and fields: the ten base operations and the five word-width ones.
pub proof fn lemma_round_trip_op(f3: u64, f7: u64, rs1: u64, rs2: u64, rd: u64)
    requires
        rs1 < 32,
        rs2 < 32,
        rd < 32,
        (f3 == 0 || f3 == 5) ==> (f7 == 0 || f7 == 0b0100000),
        !(f3 == 0 || f3 == 5) ==> f7 == 0,
        f3 < 8,
    ensures
        decode_spec(encode_r(0b0110011, f3, f7, rs1, rs2, rd)) == Some(
            op_tag(f3, f7, rs1 as usize, rs2 as usize, rd as usize),
        ),
{
    lemma_opcode_consts();
    lemma_r_format(0b0110011, f3, f7, rs1, rs2, rd);
}

/// The register-register tag a minor opcode and `funct7` select.
pub open spec fn op_tag(f3: u64, f7: u64, rs1: usize, rs2: usize, rd: usize) -> DecodedInst {
    if f3 == 0 && f7 == 0 {
        DecodedInst::Add { rs1, rs2, rd }
    } else if f3 == 0 {
        DecodedInst::Sub { rs1, rs2, rd }
    } else if f3 == 1 {
        DecodedInst::Sll { rs1, rs2, rd }
    } else if f3 == 2 {
        DecodedInst::Slt { rs1, rs2, rd }
    } else if f3 == 3 {
        DecodedInst::Sltu { rs1, rs2, rd }
    } else if f3 == 4 {
        DecodedInst::Xor { rs1, rs2, rd }
    } else if f3 == 5 && f7 == 0 {
        DecodedInst::Srl { rs1, rs2, rd }
    } else if f3 == 5 {
        DecodedInst::Sra { rs1, rs2, rd }
    } else if f3 == 6 {
        DecodedInst::Or { rs1, rs2, rd }
    } else {
        DecodedInst::And { rs1, rs2, rd }
    }
}

/// The word-width register-register tags round-trip the same way.
pub proof fn lemma_round_trip_op32(f3: u64, f7: u64, rs1: u64, rs2: u64, rd: u64)
    requires
        rs1 < 32,
        rs2 < 32,
        rd < 32,
        f3 == 0 || f3 == 1 || f3 == 5,
        f3 == 1 ==> f7 == 0,
        f3 != 1 ==> (f7 == 0 || f7 == 0b0100000),
    ensures
        decode_spec(encode_r(0b0111011, f3, f7, rs1, rs2, rd)) == Some(
            op32_tag(f3, f7, rs1 as usize, rs2 as usize, rd as usize),
        ),
{
    lemma_opcode_consts();
    lemma_r_format(0b0111011, f3, f7, rs1, rs2, rd);
}

/// The word-width register-register tag a minor opcode and `funct7` select.
pub open spec fn op32_tag(f3: u64, f7: u64, rs1: usize, rs2: usize, rd: usize) -> DecodedInst {
    if f3 == 0 && f7 == 0 {
        DecodedInst::Addw { rs1, rs2, rd }
    } else if f3 == 0 {
        DecodedInst::Subw { rs1, rs2, rd }
    } else if f3 == 1 {
        DecodedInst::Sllw { rs1, rs2, rd }
    } else if f7 == 0 {
        DecodedInst::Srlw { rs1, rs2, rd }
    } else {
        DecodedInst::Sraw { rs1, rs2, rd }
    }
}

/// Decoding a hand-assembled register-immediate pattern gives back its tag,
/// with the immediate sign-extended from its twelve bits.
pub proof fn lemma_round_trip_opimm(f3: u64, m: u64, rs1: u64, rd: u64)
    requires
        rs1 < 32,
        rd < 32,
        m < 4096,
        f3 == 0 || f3 == 2 || f3 == 3 || f3 == 4 || f3 == 6 || f3 == 7,
    ensures
        decode_spec(encode_i(0b0010011, f3, m, rs1, rd)) == Some(
            opimm_tag(f3, sign_ext_spec(12, m), rs1 as usize, rd as usize),
        ),
{
    lemma_opcode_consts();
    lemma_i_format(0b0010011, f3, m, rs1, rd);
}

/// The register-immediate tag a minor opcode selects.
pub open spec fn opimm_tag(f3: u64, imm: u64, rs1: usize, rd: usize) -> DecodedInst {
    if f3 == 0 {
        DecodedInst::Addi { rs1, rd, imm }
    } else if f3 == 2 {
        DecodedInst::Slti { rs1, rd, imm }
    } else if f3 == 3 {
        DecodedInst::Sltiu { rs1, rd, imm }
    } else if f3 == 4 {
        DecodedInst::Xori { rs1, rd, imm }
    } else if f3 == 6 {
        DecodedInst::Ori { rs1, rd, imm }
    } else {
        DecodedInst::Andi { rs1, rd, imm }
    }
}

/// The three immediate shifts round-trip with their six-bit shift amounts.
pub proof fn lemma_round_trip_shifts(shamt: u64, rs1: u64, rd: u64)
    requires
        rs1 < 32,
        rd < 32,
        shamt < 64,
    ensures
        decode_spec(encode_i(0b0010011, 1, shamt, rs1, rd)) == Some(
            DecodedInst::Slli { rs1: rs1 as usize, rd: rd as usize, shamt },
        ),
        decode_spec(encode_i(0b0010011, 5, shamt, rs1, rd)) == Some(
            DecodedInst::Srli { rs1: rs1 as usize, rd: rd as usize, shamt },
        ),
        decode_spec(encode_i(0b0010011, 5, (shamt | 0x400) as u64, rs1, rd)) == Some(
            DecodedInst::Srai { rs1: rs1 as usize, rd: rd as usize, shamt },
        ),
{
    lemma_opcode_consts();
    lemma_i_format(0b0010011, 1, shamt, rs1, rd);
    lemma_i_format(0b0010011, 5, shamt, rs1, rd);
    assert(shamt | 0x400 < 4096 && (shamt | 0x400) >> 6 == 0b010000 && (shamt | 0x400) & 0x3F
        == shamt && shamt >> 6 == 0 && shamt & 0x3F == shamt) by (bit_vector)
        requires
            shamt < 64,
    ;
    lemma_i_format(0b0010011, 5, (shamt | 0x400) as u64, rs1, rd);
}

/// The word-width immediate forms round-trip: the add with its sign-extended
/// immediate, the shifts with their five-bit amounts.
pub proof fn lemma_round_trip_opimm32(m: u64, shamt: u64, rs1: u64, rd: u64)
    requires
        rs1 < 32,
        rd < 32,
        m < 4096,
        shamt < 32,
    ensures
        decode_spec(encode_i(0b0011011, 0, m, rs1, rd)) == Some(
            DecodedInst::Addiw { rs1: rs1 as usize, rd: rd as usize, imm: sign_ext_spec(12, m) },
        ),
        decode_spec(encode_i(0b0011011, 1, shamt, rs1, rd)) == Some(
            DecodedInst::Slliw { rs1: rs1 as usize, rd: rd as usize, shamt },
        ),
        decode_spec(encode_i(0b0011011, 5, shamt, rs1, rd)) == Some(
            DecodedInst::Srliw { rs1: rs1 as usize, rd: rd as usize, shamt },
        ),
        decode_spec(encode_i(0b0011011, 5, (shamt | 0x400) as u64, rs1, rd)) == Some(
            DecodedInst::Sraiw { rs1: rs1 as usize, rd: rd as usize, shamt },
        ),
{
    lemma_opcode_consts();
    lemma_i_format(0b0011011, 0, m, rs1, rd);
    lemma_i_format(0b0011011, 1, shamt, rs1, rd);
    lemma_i_format(0b0011011, 5, shamt, rs1, rd);
    assert(shamt | 0x400 < 4096 && (shamt | 0x400) >> 5 == 0b0100000 && (shamt | 0x400) & 0x1F
        == shamt && shamt >> 5 == 0 && shamt & 0x1F == shamt) by (bit_vector)
        requires
            shamt < 32,
    ;
    lemma_i_format(0b0011011, 5, (shamt | 0x400) as u64, rs1, rd);
}

/// The upper-immediate pair round-trips with the shifted immediate.
pub proof fn lemma_round_trip_upper(m: u64, rd: u64)
    requires
        rd < 32,
        m & 0xFFF == 0,
        m < 0x1_0000_0000,
    ensures
        decode_spec(encode_u(0b0110111, m, rd)) == Some(
            DecodedInst::Lui { rd: rd as usize, imm: sign_ext_spec(32, m) },
        ),
        decode_spec(encode_u(0b0010111, m, rd)) == Some(
            DecodedInst::Auipc { rd: rd as usize, imm: sign_ext_spec(32, m) },
        ),
{
    lemma_opcode_consts();
    lemma_u_format(0b0110111, m, rd);
    lemma_u_format(0b0010111, m, rd);
}

/// The jump and the register-indirect jump round-trip.
pub proof fn lemma_round_trip_jumps(mj: u64, mi: u64, rs1: u64, rd: u64)
    requires
        rs1 < 32,
        rd < 32,
        mj < 0x20_0000,
        mj & 1 == 0,
        mi < 4096,
    ensures
        decode_spec(encode_j(mj, rd)) == Some(
            DecodedInst::Jal { rd: rd as usize, imm: sign_ext_spec(21, mj) },
        ),
        decode_spec(encode_i(0b1100111, 0, mi, rs1, rd)) == Some(
            DecodedInst::Jalr {
                rs1: rs1 as usize,
                rd: rd as usize,
                imm: sign_ext_spec(12, mi),
            },
        ),
{
    lemma_opcode_consts();
    lemma_j_format(mj, rd);
    lemma_i_format(0b1100111, 0, mi, rs1, rd);
}

/// Every branch kind round-trips with its sign-extended even offset.
pub proof fn lemma_round_trip_branch(f3: u64, m: u64, rs1: u64, rs2: u64)
    requires
        rs1 < 32,
        rs2 < 32,
        m < 0x2000,
        m & 1 == 0,
        f3 == 0 || f3 == 1 || f3 == 4 || f3 == 5 || f3 == 6 || f3 == 7,
    ensures
        decode_spec(encode_b(f3, m, rs1, rs2)) == Some(
            DecodedInst::Branch {
                func: branch_tag(f3),
                rs1: rs1 as usize,
                rs2: rs2 as usize,
                imm: sign_ext_spec(13, m),
            },
        ),
{
    lemma_opcode_consts();
    lemma_b_format(f3, m, rs1, rs2);
}

/// The branch kind a minor opcode selects.
pub open spec fn branch_tag(f3: u64) -> BranchType {
    if f3 == 0 {
        BranchType::Eq
    } else if f3 == 1 {
        BranchType::Neq
    } else if f3 == 4 {
        BranchType::Lt
    } else if f3 == 5 {
        BranchType::Ge
    } else if f3 == 6 {
        BranchType::Ltu
    } else {
        BranchType::Geu
    }
}

/// Every load width round-trips with its sign-extended offset.
pub proof fn lemma_round_trip_load(f3: u64, m: u64, rs1: u64, rd: u64)
    requires
        rs1 < 32,
        rd < 32,
        m < 4096,
        f3 < 7,
    ensures
        decode_spec(encode_i(0b0000011, f3, m, rs1, rd)) == Some(
            DecodedInst::Load {
                width: ls_width_tag(f3),
                rs1: rs1 as usize,
                rd: rd as usize,
                imm: sign_ext_spec(12, m),
            },
        ),
{
    lemma_opcode_consts();
    lemma_i_format(0b0000011, f3, m, rs1, rd);
}

/// Every store width round-trips with its sign-extended split offset.
pub proof fn lemma_round_trip_store(f3: u64, m: u64, rs1: u64, rs2: u64)
    requires
        rs1 < 32,
        rs2 < 32,
        m < 4096,
        f3 < 7,
    ensures
        decode_spec(encode_s(0b0100011, f3, m, rs1, rs2)) == Some(
            DecodedInst::Store {
                width: ls_width_tag(f3),
                rs1: rs1 as usize,
                rs2: rs2 as usize,
                imm: sign_ext_spec(12, m),
            },
        ),
{
    lemma_opcode_consts();
    lemma_s_format(0b0100011, f3, m, rs1, rs2);
}

/// The load/store width a minor opcode selects.
pub open spec fn ls_width_tag(f3: u64) -> LoadStoreWidth {
    if f3 == 0 {
        LoadStoreWidth::Byte
    } else if f3 == 1 {
        LoadStoreWidth::Half
    } else if f3 == 2 {
        LoadStoreWidth::Word
    } else if f3 == 3 {
        LoadStoreWidth::Double
    } else if f3 == 4 {
        LoadStoreWidth::ByteU
    } else if f3 == 5 {
        LoadStoreWidth::HalfU
    } else {
        LoadStoreWidth::WordU
    }
}

/// The two system encodings round-trip.
pub proof fn lemma_round_trip_system()
    ensures
        decode_spec(0x73) == Some(DecodedInst::ECall),
        decode_spec(0x0010_0073) == Some(DecodedInst::EBreak),
{
    assert(0x73u64 & 3 == 3 && 0x73u64 & 0x7F == 0b1110011 && get_spec(0x73u64, 12, 14) == 0
        && get_spec(0x73u64, 12, 31) == 0) by (bit_vector);
    assert(0x0010_0073u64 & 3 == 3 && 0x0010_0073u64 & 0x7F == 0b1110011 && get_spec(
        0x0010_0073u64,
        12,
        14,
    ) == 0 && get_spec(0x0010_0073u64, 12, 31) != 0) by (bit_vector);
}

/// A compressed six-bit-immediate encoding over a full register field.
pub open spec fn encode_ci(quad: u64, f3: u64, imm6: u64, rd: u64) -> u64 {
    (f3 << 13) | (((imm6 >> 5) & 1) << 12) | (rd << 7) | ((imm6 & 0x1F) << 2) | quad
}

/// The compressed upper-immediate encoding; `imm` has its low twelve bits
/// zero.
pub open spec fn encode_c_lui(imm: u64, rd: u64) -> u64 {
    (0b011u64 << 13) | (((imm >> 17) & 1) << 12) | (rd << 7) | (((imm >> 12) & 0x1F) << 2) | 1
}

/// The compressed stack-adjust encoding; `imm` is a multiple of 16.
pub open spec fn encode_c_addi16sp(imm: u64) -> u64 {
    (0b011u64 << 13) | (((imm >> 9) & 1) << 12) | (2u64 << 7) | (((imm >> 4) & 1) << 6) | (((imm
        >> 6) & 1) << 5) | (((imm >> 7) & 3) << 3) | (((imm >> 5) & 1) << 2) | 1
}

/// The compressed frame-allocation encoding; `imm` is a multiple of 4.
pub open spec fn encode_ciw(imm: u64, rdc: u64) -> u64 {
    (((imm >> 4) & 3) << 11) | (((imm >> 6) & 0xF) << 7) | (((imm >> 2) & 1) << 6) | (((imm >> 3)
        & 1) << 5) | (rdc << 2)
}

/// A compressed word load/store of the three-bit-register form; `imm` is a
/// multiple of 4.
pub open spec fn encode_c0w(f3: u64, imm: u64, r1c: u64, r2c: u64) -> u64 {
    (f3 << 13) | (((imm >> 3) & 7) << 10) | (r1c << 7) | (((imm >> 2) & 1) << 6) | (((imm >> 6)
        & 1) << 5) | (r2c << 2)
}

/// A compressed double load/store of the three-bit-register form; `imm` is a
/// multiple of 8.
pub open spec fn encode_c0d(f3: u64, imm: u64, r1c: u64, r2c: u64) -> u64 {
    (f3 << 13) | (((imm >> 3) & 7) << 10) | (r1c << 7) | (((imm >> 6) & 3) << 5) | (r2c << 2)
}

/// The compressed jump encoding; `imm` is even.
pub open spec fn encode_cj(imm: u64) -> u64 {
    (0b101u64 << 13) | (((imm >> 11) & 1) << 12) | (((imm >> 4) & 1) << 11) | (((imm >> 8) & 3)
        << 9) | (((imm >> 10) & 1) << 8) | (((imm >> 6) & 1) << 7) | (((imm >> 7) & 1) << 6) | (((
    imm >> 1) & 7) << 3) | (((imm >> 5) & 1) << 2) | 1
}

/// A compressed branch encoding; `imm` is even.
pub open spec fn encode_cb(f3: u64, imm: u64, r1c: u64) -> u64 {
    (f3 << 13) | (((imm >> 8) & 1) << 12) | (((imm >> 3) & 3) << 10) | (r1c << 7) | (((imm >> 6)
        & 3) << 5) | (((imm >> 1) & 3) << 3) | (((imm >> 5) & 1) << 2) | 1
}

/// The compressed three-bit-register arithmetic encoding.
pub open spec fn encode_ca(b12: u64, b5_6: u64, r1c: u64, r2c: u64) -> u64 {
    (0b100u64 << 13) | (b12 << 12) | (3u64 << 10) | (r1c << 7) | (b5_6 << 5) | (r2c << 2) | 1
}

/// The compressed shift/mask encoding over a three-bit register.
pub open spec fn encode_c1_shift(b10_11: u64, imm6: u64, r1c: u64) -> u64 {
    (0b100u64 << 13) | (((imm6 >> 5) & 1) << 12) | (b10_11 << 10) | (r1c << 7) | ((imm6 & 0x1F)
        << 2) | 1
}

/// The compressed jump/move/add encoding with full register fields.
pub open spec fn encode_cr(f4: u64, r1: u64, r2: u64) -> u64 {
    (f4 << 12) | (r1 << 7) | (r2 << 2) | 2
}

/// A stack-relative word load; `imm` is a multiple of 4.
pub open spec fn encode_c2_lw(imm: u64, rd: u64) -> u64 {
    (0b010u64 << 13) | (((imm >> 5) & 1) << 12) | (rd << 7) | (((imm >> 2) & 7) << 4) | (((imm
        >> 6) & 3) << 2) | 2
}

/// A stack-relative double load; `imm` is a multiple of 8.
pub open spec fn encode_c2_ld(f3: u64, imm: u64, rd: u64) -> u64 {
    (f3 << 13) | (((imm >> 5) & 1) << 12) | (rd << 7) | (((imm >> 3) & 3) << 5) | (((imm >> 6)
        & 7) << 2) | 2
}

/// A stack-relative word store; `imm` is a multiple of 4.
pub open spec fn encode_c2_sw(imm: u64, rs2: u64) -> u64 {
    (0b110u64 << 13) | (((imm >> 2) & 0xF) << 9) | (((imm >> 6) & 3) << 7) | (rs2 << 2) | 2
}

/// A stack-relative double store; `imm` is a multiple of 8.
pub open spec fn encode_c2_sd(f3: u64, imm: u64, rs2: u64) -> u64 {
    (f3 << 13) | (((imm >> 3) & 7) << 10) | (((imm >> 6) & 7) << 7) | (rs2 << 2) | 2
}

proof fn lemma_ci_format(quad: u64, f3: u64, m: u64, rdn: u64)
    by (bit_vector)
    requires
        quad == 1 || quad == 2,
        f3 < 8,
        m < 64,
        rdn < 32,
    ensures
        encode_ci(quad, f3, m, rdn) & 3 == quad,
        get_spec(encode_ci(quad, f3, m, rdn), 13, 15) == f3,
        rd_spec(encode_ci(quad, f3, m, rdn)) == rdn,
        crate::rv64inst::imm_c1_opimm_spec(encode_ci(quad, f3, m, rdn)) == sign_ext_spec(6, m),
{
}

proof fn lemma_c_lui_format(m: u64, rdn: u64)
    by (bit_vector)
    requires
        m < 0x4_0000,
        m & 0xFFF == 0,
        rdn < 32,
    ensures
        encode_c_lui(m, rdn) & 3 == 1,
        get_spec(encode_c_lui(m, rdn), 13, 15) == 3,
        rd_spec(encode_c_lui(m, rdn)) == rdn,
        crate::rv64inst::imm_c1_lui_spec(encode_c_lui(m, rdn)) == sign_ext_spec(18, m),
{
}

proof fn lemma_c_addi16sp_format(m: u64)
    by (bit_vector)
    requires
        m < 0x400,
        m & 0xF == 0,
    ensures
        encode_c_addi16sp(m) & 3 == 1,
        get_spec(encode_c_addi16sp(m), 13, 15) == 3,
        rd_spec(encode_c_addi16sp(m)) == 2,
        crate::rv64inst::imm_c1_addi16sp_spec(encode_c_addi16sp(m)) == sign_ext_spec(10, m),
{
}

proof fn lemma_ciw_format(m: u64, rdc: u64)
    by (bit_vector)
    requires
        m < 0x400,
        m & 3 == 0,
        rdc < 8,
    ensures
        encode_ciw(m, rdc) & 3 == 0,
        get_spec(encode_ciw(m, rdc), 13, 15) == 0,
        crate::rv64inst::rs2_c_spec(encode_ciw(m, rdc)) == rdc,
        crate::rv64inst::imm_c0_addi4spn_spec(encode_ciw(m, rdc)) == m,
{
}

proof fn lemma_c0w_format(f3: u64, m: u64, r1c: u64, r2c: u64)
    by (bit_vector)
    requires
        f3 < 8,
        m < 0x80,
        m & 3 == 0,
        r1c < 8,
        r2c < 8,
    ensures
        encode_c0w(f3, m, r1c, r2c) & 3 == 0,
        get_spec(encode_c0w(f3, m, r1c, r2c), 13, 15) == f3,
        crate::rv64inst::rs1_c_spec(encode_c0w(f3, m, r1c, r2c)) == r1c,
        crate::rv64inst::rs2_c_spec(encode_c0w(f3, m, r1c, r2c)) == r2c,
        crate::rv64inst::imm_c0_lsw_spec(encode_c0w(f3, m, r1c, r2c)) == m,
{
}

proof fn lemma_c0d_format(f3: u64, m: u64, r1c: u64, r2c: u64)
    by (bit_vector)
    requires
        f3 < 8,
        m < 0x100,
        m & 7 == 0,
        r1c < 8,
        r2c < 8,
    ensures
        encode_c0d(f3, m, r1c, r2c) & 3 == 0,
        get_spec(encode_c0d(f3, m, r1c, r2c), 13, 15) == f3,
        crate::rv64inst::rs1_c_spec(encode_c0d(f3, m, r1c, r2c)) == r1c,
        crate::rv64inst::rs2_c_spec(encode_c0d(f3, m, r1c, r2c)) == r2c,
        crate::rv64inst::imm_c0_lsd_spec(encode_c0d(f3, m, r1c, r2c)) == m,
{
}

proof fn lemma_cj_format(m: u64)
    by (bit_vector)
    requires
        m < 0x1000,
        m & 1 == 0,
    ensures
        encode_cj(m) & 3 == 1,
        get_spec(encode_cj(m), 13, 15) == 5,
        crate::rv64inst::imm_c1_j_spec(encode_cj(m)) == sign_ext_spec(12, m),
{
}

proof fn lemma_cb_format(f3: u64, m: u64, r1c: u64)
    by (bit_vector)
    requires
        f3 < 8,
        m < 0x200,
        m & 1 == 0,
        r1c < 8,
    ensures
        encode_cb(f3, m, r1c) & 3 == 1,
        get_spec(encode_cb(f3, m, r1c), 13, 15) == f3,
        crate::rv64inst::rs1_c_spec(encode_cb(f3, m, r1c)) == r1c,
        crate::rv64inst::imm_c1_bra_spec(encode_cb(f3, m, r1c)) == sign_ext_spec(9, m),
{
}

proof fn lemma_ca_format(b12: u64, b5_6: u64, r1c: u64, r2c: u64)
    by (bit_vector)
    requires
        b12 < 2,
        b5_6 < 4,
        r1c < 8,
        r2c < 8,
    ensures
        encode_ca(b12, b5_6, r1c, r2c) & 3 == 1,
        get_spec(encode_ca(b12, b5_6, r1c, r2c), 13, 15) == 4,
        get_spec(encode_ca(b12, b5_6, r1c, r2c), 12, 12) == b12,
        get_spec(encode_ca(b12, b5_6, r1c, r2c), 10, 11) == 3,
        get_spec(encode_ca(b12, b5_6, r1c, r2c), 5, 6) == b5_6,
        crate::rv64inst::rs1_c_spec(encode_ca(b12, b5_6, r1c, r2c)) == r1c,
        crate::rv64inst::rs2_c_spec(encode_ca(b12, b5_6, r1c, r2c)) == r2c,
{
}

proof fn lemma_c1_shift_format(b10_11: u64, m: u64, r1c: u64)
    by (bit_vector)
    requires
        b10_11 < 3,
        m < 64,
        r1c < 8,
    ensures
        encode_c1_shift(b10_11, m, r1c) & 3 == 1,
        get_spec(encode_c1_shift(b10_11, m, r1c), 13, 15) == 4,
        get_spec(encode_c1_shift(b10_11, m, r1c), 10, 11) == b10_11,
        crate::rv64inst::rs1_c_spec(encode_c1_shift(b10_11, m, r1c)) == r1c,
        crate::rv64inst::imm_c1_opimm_spec(encode_c1_shift(b10_11, m, r1c)) == sign_ext_spec(
            6,
            m,
        ),
{
}

proof fn lemma_cr_format(f4: u64, r1: u64, r2: u64)
    by (bit_vector)
    requires
        f4 < 16,
        r1 < 32,
        r2 < 32,
    ensures
        encode_cr(f4, r1, r2) & 3 == 2,
        get_spec(encode_cr(f4, r1, r2), 13, 15) < 8,
        get_spec(encode_cr(f4, r1, r2), 12, 12) < 2,
        2 * get_spec(encode_cr(f4, r1, r2), 13, 15) + get_spec(encode_cr(f4, r1, r2), 12, 12)
            == f4,
        rd_spec(encode_cr(f4, r1, r2)) == r1,
        get_spec(encode_cr(f4, r1, r2), 2, 6) == r2,
{
}

proof fn lemma_c2_lw_format(m: u64, rdn: u64)
    by (bit_vector)
    requires
        m < 0x100,
        m & 3 == 0,
        rdn < 32,
    ensures
        encode_c2_lw(m, rdn) & 3 == 2,
        get_spec(encode_c2_lw(m, rdn), 13, 15) == 2,
        rd_spec(encode_c2_lw(m, rdn)) == rdn,
        crate::rv64inst::imm_c2_lw_spec(encode_c2_lw(m, rdn)) == m,
{
}

proof fn lemma_c2_ld_format(f3: u64, m: u64, rdn: u64)
    by (bit_vector)
    requires
        f3 < 8,
        m < 0x200,
        m & 7 == 0,
        rdn < 32,
    ensures
        encode_c2_ld(f3, m, rdn) & 3 == 2,
        get_spec(encode_c2_ld(f3, m, rdn), 13, 15) == f3,
        rd_spec(encode_c2_ld(f3, m, rdn)) == rdn,
        crate::rv64inst::imm_c2_ld_spec(encode_c2_ld(f3, m, rdn)) == m,
{
}

proof fn lemma_c2_sw_format(m: u64, r2: u64)
    by (bit_vector)
    requires
        m < 0x100,
        m & 3 == 0,
        r2 < 32,
    ensures
        encode_c2_sw(m, r2) & 3 == 2,
        get_spec(encode_c2_sw(m, r2), 13, 15) == 6,
        get_spec(encode_c2_sw(m, r2), 2, 6) == r2,
        crate::rv64inst::imm_c2_sw_spec(encode_c2_sw(m, r2)) == m,
{
}

proof fn lemma_c2_sd_format(f3: u64, m: u64, r2: u64)
    by (bit_vector)
    requires
        f3 < 8,
        m < 0x200,
        m & 7 == 0,
        r2 < 32,
    ensures
        encode_c2_sd(f3, m, r2) & 3 == 2,
        get_spec(encode_c2_sd(f3, m, r2), 13, 15) == f3,
        get_spec(encode_c2_sd(f3, m, r2), 2, 6) == r2,
        crate::rv64inst::imm_c2_sd_spec(encode_c2_sd(f3, m, r2)) == m,
{
}

/// The frame-allocation add round-trips: the destination comes back widened
/// to its architectural number and the zero-extended immediate intact.
pub proof fn lemma_round_trip_caddi4spn(m: u64, rdc: u64)
    requires
        m < 0x400,
        m & 3 == 0,
        rdc < 8,
    ensures
        decode_spec(encode_ciw(m, rdc)) == Some(
            DecodedInst::CAddi4spn { rd: (rdc + 8) as usize, imm: m },
        ),
{
    lemma_ciw_format(m, rdc);
}

/// The three-bit-register loads round-trip for each width kind.
pub proof fn lemma_round_trip_c0_loads(mw: u64, md: u64, r1c: u64, r2c: u64)
    requires
        mw < 0x80,
        mw & 3 == 0,
        md < 0x100,
        md & 7 == 0,
        r1c < 8,
        r2c < 8,
    ensures
        decode_spec(encode_c0w(2, mw, r1c, r2c)) == Some(
            DecodedInst::CLoad {
                width: CLoadStoreWidth::Cw,
                rs1: (r1c + 8) as usize,
                rd: (r2c + 8) as usize,
                imm: mw,
            },
        ),
        decode_spec(encode_c0d(3, md, r1c, r2c)) == Some(
            DecodedInst::CLoad {
                width: CLoadStoreWidth::Cd,
                rs1: (r1c + 8) as usize,
                rd: (r2c + 8) as usize,
                imm: md,
            },
        ),
        decode_spec(encode_c0d(1, md, r1c, r2c)) == Some(
            DecodedInst::CLoad {
                width: CLoadStoreWidth::Cfd,
                rs1: (r1c + 8) as usize,
                rd: (r2c + 8) as usize,
                imm: md,
            },
        ),
{
    lemma_c0w_format(2, mw, r1c, r2c);
    lemma_c0d_format(3, md, r1c, r2c);
    lemma_c0d_format(1, md, r1c, r2c);
}

/// The three-bit-register stores round-trip for each width kind.
pub proof fn lemma_round_trip_c0_stores(mw: u64, md: u64, r1c: u64, r2c: u64)
    requires
        mw < 0x80,
        mw & 3 == 0,
        md < 0x100,
        md & 7 == 0,
        r1c < 8,
        r2c < 8,
    ensures
        decode_spec(encode_c0w(6, mw, r1c, r2c)) == Some(
            DecodedInst::CStore {
                width: CLoadStoreWidth::Cw,
                rs1: (r1c + 8) as usize,
                rs2: (r2c + 8) as usize,
                imm: mw,
            },
        ),
        decode_spec(encode_c0d(7, md, r1c, r2c)) == Some(
            DecodedInst::CStore {
                width: CLoadStoreWidth::Cd,
                rs1: (r1c + 8) as usize,
                rs2: (r2c + 8) as usize,
                imm: md,
            },
        ),
        decode_spec(encode_c0d(5, md, r1c, r2c)) == Some(
            DecodedInst::CStore {
                width: CLoadStoreWidth::Cfd,
                rs1: (r1c + 8) as usize,
                rs2: (r2c + 8) as usize,
                imm: md,
            },
        ),
{
    lemma_c0w_format(6, mw, r1c, r2c);
    lemma_c0d_format(7, md, r1c, r2c);
    lemma_c0d_format(5, md, r1c, r2c);
}

/// The compressed constant and add forms round-trip with their six-bit
/// sign-extended immediates, and the stack-relative shift likewise.
pub proof fn lemma_round_trip_ci(m: u64, rd: u64)
    requires
        m < 64,
        rd < 32,
    ensures
        decode_spec(encode_ci(1, 0, m, rd)) == Some(
            DecodedInst::CAddi { rsrd: rd as usize, imm: sign_ext_spec(6, m) },
        ),
        decode_spec(encode_ci(1, 1, m, rd)) == Some(
            DecodedInst::CAddiw { rsrd: rd as usize, imm: sign_ext_spec(6, m) },
        ),
        decode_spec(encode_ci(1, 2, m, rd)) == Some(
            DecodedInst::CLi { rd: rd as usize, imm: sign_ext_spec(6, m) },
        ),
        decode_spec(encode_ci(2, 0, m, rd)) == Some(
            DecodedInst::CSlli { rsrd: rd as usize, shamt: sign_ext_spec(6, m) },
        ),
{
    lemma_ci_format(1, 0, m, rd);
    lemma_ci_format(1, 1, m, rd);
    lemma_ci_format(1, 2, m, rd);
    lemma_ci_format(2, 0, m, rd);
}

/// The compressed upper immediate round-trips for any destination but the
/// stack pointer, whose encoding means the stack adjustment instead.
pub proof fn lemma_round_trip_clui(m: u64, rd: u64)
    requires
        m < 0x4_0000,
        m & 0xFFF == 0,
        rd < 32,
        rd != 2,
    ensures
        decode_spec(encode_c_lui(m, rd)) == Some(
            DecodedInst::CLui { rd: rd as usize, imm: sign_ext_spec(18, m) },
        ),
{
    lemma_c_lui_format(m, rd);
}

/// The stack adjustment round-trips with its sign-extended multiple of 16.
pub proof fn lemma_round_trip_caddi16sp(m: u64)
    requires
        m < 0x400,
        m & 0xF == 0,
    ensures
        decode_spec(encode_c_addi16sp(m)) == Some(
            DecodedInst::CAddi16sp { imm: sign_ext_spec(10, m) },
        ),
{
    lemma_c_addi16sp_format(m);
}

/// The compressed shifts and the mask round-trip over a three-bit register.
pub proof fn lemma_round_trip_c1_shifts(m: u64, r1c: u64)
    requires
        m < 64,
        r1c < 8,
    ensures
        decode_spec(encode_c1_shift(0, m, r1c)) == Some(
            DecodedInst::CSrli { rsrd: (r1c + 8) as usize, shamt: sign_ext_spec(6, m) },
        ),
        decode_spec(encode_c1_shift(1, m, r1c)) == Some(
            DecodedInst::CSrai { rsrd: (r1c + 8) as usize, shamt: sign_ext_spec(6, m) },
        ),
        decode_spec(encode_c1_shift(2, m, r1c)) == Some(
            DecodedInst::CAndi { rsrd: (r1c + 8) as usize, imm: sign_ext_spec(6, m) },
        ),
{
    lemma_c1_shift_format(0, m, r1c);
    lemma_c1_shift_format(1, m, r1c);
    lemma_c1_shift_format(2, m, r1c);
}

/// The six compressed register-register operations round-trip.
pub proof fn lemma_round_trip_c1_arith(r1c: u64, r2c: u64)
    requires
        r1c < 8,
        r2c < 8,
    ensures
        decode_spec(encode_ca(0, 0, r1c, r2c)) == Some(
            DecodedInst::CSub { rsrd: (r1c + 8) as usize, rs2: (r2c + 8) as usize },
        ),
        decode_spec(encode_ca(0, 1, r1c, r2c)) == Some(
            DecodedInst::CXor { rsrd: (r1c + 8) as usize, rs2: (r2c + 8) as usize },
        ),
        decode_spec(encode_ca(0, 2, r1c, r2c)) == Some(
            DecodedInst::COr { rsrd: (r1c + 8) as usize, rs2: (r2c + 8) as usize },
        ),
        decode_spec(encode_ca(0, 3, r1c, r2c)) == Some(
            DecodedInst::CAnd { rsrd: (r1c + 8) as usize, rs2: (r2c + 8) as usize },
        ),
        decode_spec(encode_ca(1, 0, r1c, r2c)) == Some(
            DecodedInst::CSubw { rsrd: (r1c + 8) as usize, rs2: (r2c + 8) as usize },
        ),
        decode_spec(encode_ca(1, 1, r1c, r2c)) == Some(
            DecodedInst::CAddw { rsrd: (r1c + 8) as usize, rs2: (r2c + 8) as usize },
        ),
{
    lemma_ca_format(0, 0, r1c, r2c);
    lemma_ca_format(0, 1, r1c, r2c);
    lemma_ca_format(0, 2, r1c, r2c);
    lemma_ca_format(0, 3, r1c, r2c);
    lemma_ca_format(1, 0, r1c, r2c);
    lemma_ca_format(1, 1, r1c, r2c);
}

/// The compressed jump round-trips with its sign-extended even offset.
pub proof fn lemma_round_trip_cj(m: u64)
    requires
        m < 0x1000,
        m & 1 == 0,
    ensures
        decode_spec(encode_cj(m)) == Some(DecodedInst::CJ { imm: sign_ext_spec(12, m) }),
{
    lemma_cj_format(m);
}

/// The two compressed branches round-trip.
pub proof fn lemma_round_trip_cb(m: u64, r1c: u64)
    requires
        m < 0x200,
        m & 1 == 0,
        r1c < 8,
    ensures
        decode_spec(encode_cb(6, m, r1c)) == Some(
            DecodedInst::CBeqz { rs1: (r1c + 8) as usize, imm: sign_ext_spec(9, m) },
        ),
        decode_spec(encode_cb(7, m, r1c)) == Some(
            DecodedInst::CBnez { rs1: (r1c + 8) as usize, imm: sign_ext_spec(9, m) },
        ),
{
    lemma_cb_format(6, m, r1c);
    lemma_cb_format(7, m, r1c);
}

/// The compressed jump/move/breakpoint/add group round-trips, with the
/// zero-register cases picking out the jumps and the breakpoint.
pub proof fn lemma_round_trip_cr(r1: u64, r2: u64)
    requires
        r1 < 32,
        r2 < 32,
    ensures
        decode_spec(encode_cr(8, r1, 0)) == Some(DecodedInst::CJr { rs1: r1 as usize }),
        r2 != 0 ==> decode_spec(encode_cr(8, r1, r2)) == Some(
            DecodedInst::CMv { rsrd: r1 as usize, rs2: r2 as usize },
        ),
        decode_spec(encode_cr(9, 0, 0)) == Some(DecodedInst::CEBreak),
        r1 != 0 ==> decode_spec(encode_cr(9, r1, 0)) == Some(
            DecodedInst::CJalr { rs1: r1 as usize },
        ),
        r2 != 0 ==> decode_spec(encode_cr(9, r1, r2)) == Some(
            DecodedInst::CAdd { rsrd: r1 as usize, rs2: r2 as usize },
        ),
{
    lemma_cr_format(8, r1, 0);
    lemma_cr_format(8, r1, r2);
    lemma_cr_format(9, 0, 0);
    lemma_cr_format(9, r1, 0);
    lemma_cr_format(9, r1, r2);
}

/// The stack-relative loads round-trip for each width kind.
pub proof fn lemma_round_trip_c2_loads(mw: u64, md: u64, rd: u64)
    requires
        mw < 0x100,
        mw & 3 == 0,
        md < 0x200,
        md & 7 == 0,
        rd < 32,
    ensures
        decode_spec(encode_c2_lw(mw, rd)) == Some(
            DecodedInst::CLoadStack { width: CLoadStoreWidth::Cw, rd: rd as usize, imm: mw },
        ),
        decode_spec(encode_c2_ld(3, md, rd)) == Some(
            DecodedInst::CLoadStack { width: CLoadStoreWidth::Cd, rd: rd as usize, imm: md },
        ),
        decode_spec(encode_c2_ld(1, md, rd)) == Some(
            DecodedInst::CLoadStack { width: CLoadStoreWidth::Cfd, rd: rd as usize, imm: md },
        ),
{
    lemma_c2_lw_format(mw, rd);
    lemma_c2_ld_format(3, md, rd);
    lemma_c2_ld_format(1, md, rd);
}

/// The stack-relative stores round-trip for each width kind.
pub proof fn lemma_round_trip_c2_stores(mw: u64, md: u64, r2: u64)
    requires
        mw < 0x100,
        mw & 3 == 0,
        md < 0x200,
        md & 7 == 0,
        r2 < 32,
    ensures
        decode_spec(encode_c2_sw(mw, r2)) == Some(
            DecodedInst::CStoreStack { width: CLoadStoreWidth::Cw, rs2: r2 as usize, imm: mw },
        ),
        decode_spec(encode_c2_sd(7, md, r2)) == Some(
            DecodedInst::CStoreStack { width: CLoadStoreWidth::Cd, rs2: r2 as usize, imm: md },
        ),
        decode_spec(encode_c2_sd(5, md, r2)) == Some(
            DecodedInst::CStoreStack { width: CLoadStoreWidth::Cfd, rs2: r2 as usize, imm: md },
        ),
{
    lemma_c2_sw_format(mw, r2);
    lemma_c2_sd_format(7, md, r2);
    lemma_c2_sd_format(5, md, r2);
}

} // verus!
