//! The instruction decoder: a pure function from raw bits to the tagged
//! decoded value, dispatching on the compressed quadrant or the full-width
//! major opcode and synthesizing each immediate already sign-extended.

use vstd::prelude::*;
use crate::bitops::{
    BitRange, bit_range_get, bit_range_map, sign_ext64, get_spec, map_spec, sign_ext_spec,
    mask_spec, lemma_and_mask_bound,
};
use crate::rv64defs::{
    RawInst, InstSpec, InstOpcode, DecodedInst, BranchType, LoadStoreWidth, CLoadStoreWidth,
    opcode_of_bits, opcode_of_bits_spec, branch_type_of, branch_type_of_spec, ls_width_of,
    ls_width_of_spec,
};

verus! {

/// The masks of the field widths the decoder pulls out.
proof fn lemma_field_masks()
    by (bit_vector)
    ensures
        mask_spec(2) == 3,
        mask_spec(3) == 7,
        mask_spec(5) == 0x1F,
        mask_spec(7) == 0x7F,
        mask_spec(20) == 0xF_FFFF,
{
}

/// Map a compressed three-bit register field to its architectural number.
pub fn opt_creg_to_reg(creg: Option<usize>) -> (r: Option<usize>)
    requires
        creg is Some ==> creg->0 <= 24,
    ensures
        r == match creg {
            Some(rn) => Some((rn + 8) as usize),
            None => None::<usize>,
        },
{
    match creg {
        Some(rn) => Some(8 + rn),
        None => None,
    }
}

/// `rs1`, bits `[19:15]` of a full-width encoding.
pub open spec fn rs1_spec(v: u64) -> u64 {
    get_spec(v, 15, 19)
}

fn rs1(rinst: &RawInst) -> (r: u64)
    ensures
        r == rs1_spec(rinst.raw as u64),
        r < 32,
{
    proof {
        lemma_field_masks();
    }
    bit_range_get(rinst.raw as u64, BitRange(15, 19))
}

/// `rs2`, bits `[24:20]` of a full-width encoding.
pub open spec fn rs2_spec(v: u64) -> u64 {
    get_spec(v, 20, 24)
}

fn rs2(rinst: &RawInst) -> (r: u64)
    ensures
        r == rs2_spec(rinst.raw as u64),
        r < 32,
{
    proof {
        lemma_field_masks();
    }
    bit_range_get(rinst.raw as u64, BitRange(20, 24))
}

/// `rd`, bits `[11:7]` of a full-width encoding.
pub open spec fn rd_spec(v: u64) -> u64 {
    get_spec(v, 7, 11)
}

fn rd(rinst: &RawInst) -> (r: u64)
    ensures
        r == rd_spec(rinst.raw as u64),
        r < 32,
{
    proof {
        lemma_field_masks();
    }
    bit_range_get(rinst.raw as u64, BitRange(7, 11))
}

/// `funct7`, bits `[31:25]` of a full-width encoding.
pub open spec fn funct7_spec(v: u64) -> u64 {
    get_spec(v, 25, 31)
}

fn funct7_32(rinst: &RawInst) -> (r: u64)
    ensures
        r == funct7_spec(rinst.raw as u64),
{
    bit_range_get(rinst.raw as u64, BitRange(25, 31))
}

/// The three-bit register field at bits `[9:7]` of a compressed encoding.
pub open spec fn rs1_c_spec(v: u64) -> u64 {
    get_spec(v, 7, 9)
}

fn rs1_c(rinst: &RawInst) -> (r: u64)
    ensures
        r == rs1_c_spec(rinst.raw as u64),
        r < 8,
{
    proof {
        lemma_field_masks();
    }
    bit_range_get(rinst.raw as u64, BitRange(7, 9))
}

/// The three-bit register field at bits `[4:2]` of a compressed encoding.
pub open spec fn rs2_c_spec(v: u64) -> u64 {
    get_spec(v, 2, 4)
}

fn rs2_c(rinst: &RawInst) -> (r: u64)
    ensures
        r == rs2_c_spec(rinst.raw as u64),
        r < 8,
{
    proof {
        lemma_field_masks();
    }
    bit_range_get(rinst.raw as u64, BitRange(2, 4))
}

/// I-type immediate: bits `[31:20]` sign-extended from width 12.
pub open spec fn imm_i_spec(v: u64) -> u64 {
    sign_ext_spec(
        12,
        map_spec(v, 31, 31, 11, 11) | map_spec(v, 25, 30, 5, 10) | map_spec(v, 21, 24, 1, 4)
            | map_spec(v, 20, 20, 0, 0),
    )
}

fn imm_i(v: u64) -> (r: u64)
    ensures
        r == imm_i_spec(v),
{
    sign_ext64(
        12,
        bit_range_map(v, BitRange(31, 31), BitRange(11, 11)) | bit_range_map(
            v,
            BitRange(25, 30),
            BitRange(5, 10),
        ) | bit_range_map(v, BitRange(21, 24), BitRange(1, 4)) | bit_range_map(
            v,
            BitRange(20, 20),
            BitRange(0, 0),
        ),
    )
}

/// S-type immediate: store offset split across `[31:25]` and `[11:7]`.
pub open spec fn imm_s_spec(v: u64) -> u64 {
    sign_ext_spec(
        12,
        map_spec(v, 31, 31, 11, 11) | map_spec(v, 25, 30, 5, 10) | map_spec(v, 8, 11, 1, 4)
            | map_spec(v, 7, 7, 0, 0),
    )
}

fn imm_s(v: u64) -> (r: u64)
    ensures
        r == imm_s_spec(v),
{
    sign_ext64(
        12,
        bit_range_map(v, BitRange(31, 31), BitRange(11, 11)) | bit_range_map(
            v,
            BitRange(25, 30),
            BitRange(5, 10),
        ) | bit_range_map(v, BitRange(8, 11), BitRange(1, 4)) | bit_range_map(
            v,
            BitRange(7, 7),
            BitRange(0, 0),
        ),
    )
}

/// B-type immediate: branch offset, bit 0 zero, sign-extended from width 13.
pub open spec fn imm_b_spec(v: u64) -> u64 {
    sign_ext_spec(
        13,
        map_spec(v, 31, 31, 12, 12) | map_spec(v, 7, 7, 11, 11) | map_spec(v, 25, 30, 5, 10)
            | map_spec(v, 8, 11, 1, 4),
    )
}

fn imm_b(v: u64) -> (r: u64)
    ensures
        r == imm_b_spec(v),
{
    sign_ext64(
        13,
        bit_range_map(v, BitRange(31, 31), BitRange(12, 12)) | bit_range_map(
            v,
            BitRange(7, 7),
            BitRange(11, 11),
        ) | bit_range_map(v, BitRange(25, 30), BitRange(5, 10)) | bit_range_map(
            v,
            BitRange(8, 11),
            BitRange(1, 4),
        ),
    )
}

/// U-type immediate: bits `[31:12]` in place, low 12 bits zero.
pub open spec fn imm_u_spec(v: u64) -> u64 {
    sign_ext_spec(32, map_spec(v, 12, 31, 12, 31))
}

fn imm_u(v: u64) -> (r: u64)
    ensures
        r == imm_u_spec(v),
{
    sign_ext64(32, bit_range_map(v, BitRange(12, 31), BitRange(12, 31)))
}

/// J-type immediate: jump offset, sign-extended from width 21.
pub open spec fn imm_j_spec(v: u64) -> u64 {
    sign_ext_spec(
        21,
        map_spec(v, 31, 31, 20, 20) | map_spec(v, 12, 19, 12, 19) | map_spec(v, 20, 20, 11, 11)
            | map_spec(v, 25, 30, 5, 10) | map_spec(v, 21, 24, 1, 4),
    )
}

fn imm_j(v: u64) -> (r: u64)
    ensures
        r == imm_j_spec(v),
{
    sign_ext64(
        21,
        bit_range_map(v, BitRange(31, 31), BitRange(20, 20)) | bit_range_map(
            v,
            BitRange(12, 19),
            BitRange(12, 19),
        ) | bit_range_map(v, BitRange(20, 20), BitRange(11, 11)) | bit_range_map(
            v,
            BitRange(25, 30),
            BitRange(5, 10),
        ) | bit_range_map(v, BitRange(21, 24), BitRange(1, 4)),
    )
}

/// Word-sized compressed load/store offset (quadrant 0).
pub open spec fn imm_c0_lsw_spec(v: u64) -> u64 {
    map_spec(v, 5, 5, 6, 6) | map_spec(v, 10, 12, 3, 5) | map_spec(v, 6, 6, 2, 2)
}

fn imm_c0_lsw(v: u64) -> (r: u64)
    ensures
        r == imm_c0_lsw_spec(v),
{
    bit_range_map(v, BitRange(5, 5), BitRange(6, 6)) | bit_range_map(
        v,
        BitRange(10, 12),
        BitRange(3, 5),
    ) | bit_range_map(v, BitRange(6, 6), BitRange(2, 2))
}

/// Double-sized compressed load/store offset (quadrant 0).
pub open spec fn imm_c0_lsd_spec(v: u64) -> u64 {
    map_spec(v, 5, 6, 6, 7) | map_spec(v, 10, 12, 3, 5)
}

fn imm_c0_lsd(v: u64) -> (r: u64)
    ensures
        r == imm_c0_lsd_spec(v),
{
    bit_range_map(v, BitRange(5, 6), BitRange(6, 7)) | bit_range_map(
        v,
        BitRange(10, 12),
        BitRange(3, 5),
    )
}

/// Stack-frame allocation immediate of the quadrant-0 add.
pub open spec fn imm_c0_addi4spn_spec(v: u64) -> u64 {
    map_spec(v, 5, 5, 3, 3) | map_spec(v, 6, 6, 2, 2) | map_spec(v, 7, 10, 6, 9) | map_spec(
        v,
        11,
        12,
        4,
        5,
    )
}

fn imm_c0_addi4spn(v: u64) -> (r: u64)
    ensures
        r == imm_c0_addi4spn_spec(v),
{
    bit_range_map(v, BitRange(5, 5), BitRange(3, 3)) | bit_range_map(
        v,
        BitRange(6, 6),
        BitRange(2, 2),
    ) | bit_range_map(v, BitRange(7, 10), BitRange(6, 9)) | bit_range_map(
        v,
        BitRange(11, 12),
        BitRange(4, 5),
    )
}

/// Compressed jump offset, sign-extended from width 12.
pub open spec fn imm_c1_j_spec(v: u64) -> u64 {
    sign_ext_spec(
        12,
        map_spec(v, 2, 2, 5, 5) | map_spec(v, 3, 5, 1, 3) | map_spec(v, 6, 6, 7, 7) | map_spec(
            v,
            7,
            7,
            6,
            6,
        ) | map_spec(v, 8, 8, 10, 10) | map_spec(v, 9, 10, 8, 9) | map_spec(v, 11, 11, 4, 4)
            | map_spec(v, 12, 12, 11, 11),
    )
}

fn imm_c1_j(v: u64) -> (r: u64)
    ensures
        r == imm_c1_j_spec(v),
{
    sign_ext64(
        12,
        bit_range_map(v, BitRange(2, 2), BitRange(5, 5)) | bit_range_map(
            v,
            BitRange(3, 5),
            BitRange(1, 3),
        ) | bit_range_map(v, BitRange(6, 6), BitRange(7, 7)) | bit_range_map(
            v,
            BitRange(7, 7),
            BitRange(6, 6),
        ) | bit_range_map(v, BitRange(8, 8), BitRange(10, 10)) | bit_range_map(
            v,
            BitRange(9, 10),
            BitRange(8, 9),
        ) | bit_range_map(v, BitRange(11, 11), BitRange(4, 4)) | bit_range_map(
            v,
            BitRange(12, 12),
            BitRange(11, 11),
        ),
    )
}

/// Compressed branch offset, sign-extended from width 9.
pub open spec fn imm_c1_bra_spec(v: u64) -> u64 {
    sign_ext_spec(
        9,
        map_spec(v, 12, 12, 8, 8) | map_spec(v, 10, 11, 3, 4) | map_spec(v, 5, 6, 6, 7)
            | map_spec(v, 3, 4, 1, 2) | map_spec(v, 2, 2, 5, 5),
    )
}

fn imm_c1_bra(v: u64) -> (r: u64)
    ensures
        r == imm_c1_bra_spec(v),
{
    sign_ext64(
        9,
        bit_range_map(v, BitRange(12, 12), BitRange(8, 8)) | bit_range_map(
            v,
            BitRange(10, 11),
            BitRange(3, 4),
        ) | bit_range_map(v, BitRange(5, 6), BitRange(6, 7)) | bit_range_map(
            v,
            BitRange(3, 4),
            BitRange(1, 2),
        ) | bit_range_map(v, BitRange(2, 2), BitRange(5, 5)),
    )
}

/// Compressed six-bit immediate, sign-extended: the add/load/shift forms.
pub open spec fn imm_c1_opimm_spec(v: u64) -> u64 {
    sign_ext_spec(6, map_spec(v, 2, 6, 0, 4) | map_spec(v, 12, 12, 5, 5))
}

fn imm_c1_opimm(v: u64) -> (r: u64)
    ensures
        r == imm_c1_opimm_spec(v),
{
    sign_ext64(
        6,
        bit_range_map(v, BitRange(2, 6), BitRange(0, 4)) | bit_range_map(
            v,
            BitRange(12, 12),
            BitRange(5, 5),
        ),
    )
}

/// Compressed upper immediate, sign-extended from width 18.
pub open spec fn imm_c1_lui_spec(v: u64) -> u64 {
    sign_ext_spec(18, map_spec(v, 2, 6, 12, 16) | map_spec(v, 12, 12, 17, 17))
}

fn imm_c1_lui(v: u64) -> (r: u64)
    ensures
        r == imm_c1_lui_spec(v),
{
    sign_ext64(
        18,
        bit_range_map(v, BitRange(2, 6), BitRange(12, 16)) | bit_range_map(
            v,
            BitRange(12, 12),
            BitRange(17, 17),
        ),
    )
}

/// Stack-pointer adjustment immediate, sign-extended from width 10.
pub open spec fn imm_c1_addi16sp_spec(v: u64) -> u64 {
    sign_ext_spec(
        10,
        map_spec(v, 2, 2, 5, 5) | map_spec(v, 3, 4, 7, 8) | map_spec(v, 5, 5, 6, 6) | map_spec(
            v,
            6,
            6,
            4,
            4,
        ) | map_spec(v, 12, 12, 9, 9),
    )
}

fn imm_c1_addi16sp(v: u64) -> (r: u64)
    ensures
        r == imm_c1_addi16sp_spec(v),
{
    sign_ext64(
        10,
        bit_range_map(v, BitRange(2, 2), BitRange(5, 5)) | bit_range_map(
            v,
            BitRange(3, 4),
            BitRange(7, 8),
        ) | bit_range_map(v, BitRange(5, 5), BitRange(6, 6)) | bit_range_map(
            v,
            BitRange(6, 6),
            BitRange(4, 4),
        ) | bit_range_map(v, BitRange(12, 12), BitRange(9, 9)),
    )
}

/// Stack-relative word load offset (quadrant 2).
pub open spec fn imm_c2_lw_spec(v: u64) -> u64 {
    map_spec(v, 2, 3, 6, 7) | map_spec(v, 4, 6, 2, 4) | map_spec(v, 12, 12, 5, 5)
}

fn imm_c2_lw(v: u64) -> (r: u64)
    ensures
        r == imm_c2_lw_spec(v),
{
    bit_range_map(v, BitRange(2, 3), BitRange(6, 7)) | bit_range_map(
        v,
        BitRange(4, 6),
        BitRange(2, 4),
    ) | bit_range_map(v, BitRange(12, 12), BitRange(5, 5))
}

/// Stack-relative double load offset (quadrant 2).
pub open spec fn imm_c2_ld_spec(v: u64) -> u64 {
    map_spec(v, 2, 4, 6, 8) | map_spec(v, 5, 6, 3, 4) | map_spec(v, 12, 12, 5, 5)
}

fn imm_c2_ld(v: u64) -> (r: u64)
    ensures
        r == imm_c2_ld_spec(v),
{
    bit_range_map(v, BitRange(2, 4), BitRange(6, 8)) | bit_range_map(
        v,
        BitRange(5, 6),
        BitRange(3, 4),
    ) | bit_range_map(v, BitRange(12, 12), BitRange(5, 5))
}

/// Stack-relative word store offset (quadrant 2).
pub open spec fn imm_c2_sw_spec(v: u64) -> u64 {
    map_spec(v, 7, 8, 6, 7) | map_spec(v, 9, 12, 2, 5)
}

fn imm_c2_sw(v: u64) -> (r: u64)
    ensures
        r == imm_c2_sw_spec(v),
{
    bit_range_map(v, BitRange(7, 8), BitRange(6, 7)) | bit_range_map(
        v,
        BitRange(9, 12),
        BitRange(2, 5),
    )
}

/// Stack-relative double store offset (quadrant 2).
pub open spec fn imm_c2_sd_spec(v: u64) -> u64 {
    map_spec(v, 7, 9, 6, 8) | map_spec(v, 10, 12, 3, 5)
}

fn imm_c2_sd(v: u64) -> (r: u64)
    ensures
        r == imm_c2_sd_spec(v),
{
    bit_range_map(v, BitRange(7, 9), BitRange(6, 8)) | bit_range_map(
        v,
        BitRange(10, 12),
        BitRange(3, 5),
    )
}

/// The opcode group and minor opcode of a raw encoding: the low two bits
/// select a compressed quadrant with its minor at `[15:13]`, or a full-width
/// encoding with its major at `[6:0]` and minor at `[14:12]`.
pub open spec fn pre_decode_spec(v: u64) -> Option<InstSpec> {
    if v & 3 == 0 {
        Some(InstSpec(InstOpcode::C0, get_spec(v, 13, 15) as usize))
    } else if v & 3 == 1 {
        Some(InstSpec(InstOpcode::C1, get_spec(v, 13, 15) as usize))
    } else if v & 3 == 2 {
        Some(InstSpec(InstOpcode::C2, get_spec(v, 13, 15) as usize))
    } else {
        match opcode_of_bits_spec(v & 0x7F) {
            Some(op) => Some(InstSpec(op, get_spec(v, 12, 14) as usize)),
            None => None,
        }
    }
}

/// Split a raw encoding into its opcode group and minor opcode.
fn pre_decode(rinst: &RawInst) -> (r: Option<InstSpec>)
    ensures
        r == pre_decode_spec(rinst.raw as u64),
{
    let v = rinst.raw as u64;
    proof {
        lemma_field_masks();
        lemma_and_mask_bound(v, 3);
    }
    let quad = v & 3;
    if quad == 0 {
        Some(InstSpec(InstOpcode::C0, bit_range_get(v, BitRange(13, 15)) as usize))
    } else if quad == 1 {
        Some(InstSpec(InstOpcode::C1, bit_range_get(v, BitRange(13, 15)) as usize))
    } else if quad == 2 {
        Some(InstSpec(InstOpcode::C2, bit_range_get(v, BitRange(13, 15)) as usize))
    } else {
        match opcode_of_bits(v & 0x7F) {
            Some(op) => Some(InstSpec(op, bit_range_get(v, BitRange(12, 14)) as usize)),
            None => None,
        }
    }
}

/// Every register index of a decoded instruction is architectural: below 32.
pub open spec fn inst_regs_wf(i: DecodedInst) -> bool {
    match i {
        DecodedInst::Add { rs1, rs2, rd } => rs1 < 32 && rs2 < 32 && rd < 32,
        DecodedInst::Sub { rs1, rs2, rd } => rs1 < 32 && rs2 < 32 && rd < 32,
        DecodedInst::Sll { rs1, rs2, rd } => rs1 < 32 && rs2 < 32 && rd < 32,
        DecodedInst::Slt { rs1, rs2, rd } => rs1 < 32 && rs2 < 32 && rd < 32,
        DecodedInst::Sltu { rs1, rs2, rd } => rs1 < 32 && rs2 < 32 && rd < 32,
        DecodedInst::Xor { rs1, rs2, rd } => rs1 < 32 && rs2 < 32 && rd < 32,
        DecodedInst::Srl { rs1, rs2, rd } => rs1 < 32 && rs2 < 32 && rd < 32,
        DecodedInst::Sra { rs1, rs2, rd } => rs1 < 32 && rs2 < 32 && rd < 32,
        DecodedInst::Or { rs1, rs2, rd } => rs1 < 32 && rs2 < 32 && rd < 32,
        DecodedInst::And { rs1, rs2, rd } => rs1 < 32 && rs2 < 32 && rd < 32,
        DecodedInst::Addi { rs1, rd, .. } => rs1 < 32 && rd < 32,
        DecodedInst::Slti { rs1, rd, .. } => rs1 < 32 && rd < 32,
        DecodedInst::Sltiu { rs1, rd, .. } => rs1 < 32 && rd < 32,
        DecodedInst::Xori { rs1, rd, .. } => rs1 < 32 && rd < 32,
        DecodedInst::Ori { rs1, rd, .. } => rs1 < 32 && rd < 32,
        DecodedInst::Andi { rs1, rd, .. } => rs1 < 32 && rd < 32,
        DecodedInst::Slli { rs1, rd, .. } => rs1 < 32 && rd < 32,
        DecodedInst::Srli { rs1, rd, .. } => rs1 < 32 && rd < 32,
        DecodedInst::Srai { rs1, rd, .. } => rs1 < 32 && rd < 32,
        DecodedInst::Addw { rs1, rs2, rd } => rs1 < 32 && rs2 < 32 && rd < 32,
        DecodedInst::Subw { rs1, rs2, rd } => rs1 < 32 && rs2 < 32 && rd < 32,
        DecodedInst::Sllw { rs1, rs2, rd } => rs1 < 32 && rs2 < 32 && rd < 32,
        DecodedInst::Srlw { rs1, rs2, rd } => rs1 < 32 && rs2 < 32 && rd < 32,
        DecodedInst::Sraw { rs1, rs2, rd } => rs1 < 32 && rs2 < 32 && rd < 32,
        DecodedInst::Addiw { rs1, rd, .. } => rs1 < 32 && rd < 32,
        DecodedInst::Slliw { rs1, rd, .. } => rs1 < 32 && rd < 32,
        DecodedInst::Srliw { rs1, rd, .. } => rs1 < 32 && rd < 32,
        DecodedInst::Sraiw { rs1, rd, .. } => rs1 < 32 && rd < 32,
        DecodedInst::Lui { rd, .. } => rd < 32,
        DecodedInst::Auipc { rd, .. } => rd < 32,
        DecodedInst::Jal { rd, .. } => rd < 32,
        DecodedInst::Jalr { rs1, rd, .. } => rs1 < 32 && rd < 32,
        DecodedInst::Branch { rs1, rs2, .. } => rs1 < 32 && rs2 < 32,
        DecodedInst::Load { rs1, rd, .. } => rs1 < 32 && rd < 32,
        DecodedInst::Store { rs1, rs2, .. } => rs1 < 32 && rs2 < 32,
        DecodedInst::ECall => true,
        DecodedInst::EBreak => true,
        DecodedInst::CAddi4spn { rd, .. } => rd < 32,
        DecodedInst::CLoad { rs1, rd, .. } => rs1 < 32 && rd < 32,
        DecodedInst::CStore { rs1, rs2, .. } => rs1 < 32 && rs2 < 32,
        DecodedInst::CAddi { rsrd, .. } => rsrd < 32,
        DecodedInst::CAddiw { rsrd, .. } => rsrd < 32,
        DecodedInst::CLi { rd, .. } => rd < 32,
        DecodedInst::CAddi16sp { .. } => true,
        DecodedInst::CLui { rd, .. } => rd < 32,
        DecodedInst::CSrli { rsrd, .. } => rsrd < 32,
        DecodedInst::CSrai { rsrd, .. } => rsrd < 32,
        DecodedInst::CAndi { rsrd, .. } => rsrd < 32,
        DecodedInst::CSub { rsrd, rs2 } => rsrd < 32 && rs2 < 32,
        DecodedInst::CXor { rsrd, rs2 } => rsrd < 32 && rs2 < 32,
        DecodedInst::COr { rsrd, rs2 } => rsrd < 32 && rs2 < 32,
        DecodedInst::CAnd { rsrd, rs2 } => rsrd < 32 && rs2 < 32,
        DecodedInst::CSubw { rsrd, rs2 } => rsrd < 32 && rs2 < 32,
        DecodedInst::CAddw { rsrd, rs2 } => rsrd < 32 && rs2 < 32,
        DecodedInst::CJ { .. } => true,
        DecodedInst::CJal { .. } => true,
        DecodedInst::CBeqz { rs1, .. } => rs1 < 32,
        DecodedInst::CBnez { rs1, .. } => rs1 < 32,
        DecodedInst::CSlli { rsrd, .. } => rsrd < 32,
        DecodedInst::CLoadStack { rd, .. } => rd < 32,
        DecodedInst::CStoreStack { rs2, .. } => rs2 < 32,
        DecodedInst::CJr { rs1 } => rs1 < 32,
        DecodedInst::CMv { rsrd, rs2 } => rsrd < 32 && rs2 < 32,
        DecodedInst::CEBreak => true,
        DecodedInst::CJalr { rs1 } => rs1 < 32,
        DecodedInst::CAdd { rsrd, rs2 } => rsrd < 32 && rs2 < 32,
    }
}

/// The register-register group, split by minor opcode and `funct7`.
pub open spec fn decode_op_spec(v: u64, f3: usize) -> Option<DecodedInst> {
    let r1 = rs1_spec(v) as usize;
    let r2 = rs2_spec(v) as usize;
    let rdn = rd_spec(v) as usize;
    if f3 == 0 {
        if funct7_spec(v) == 0 {
            Some(DecodedInst::Add { rs1: r1, rs2: r2, rd: rdn })
        } else if funct7_spec(v) == 0b0100000 {
            Some(DecodedInst::Sub { rs1: r1, rs2: r2, rd: rdn })
        } else {
            None
        }
    } else if f3 == 1 {
        Some(DecodedInst::Sll { rs1: r1, rs2: r2, rd: rdn })
    } else if f3 == 2 {
        Some(DecodedInst::Slt { rs1: r1, rs2: r2, rd: rdn })
    } else if f3 == 3 {
        Some(DecodedInst::Sltu { rs1: r1, rs2: r2, rd: rdn })
    } else if f3 == 4 {
        Some(DecodedInst::Xor { rs1: r1, rs2: r2, rd: rdn })
    } else if f3 == 5 {
        if funct7_spec(v) == 0 {
            Some(DecodedInst::Srl { rs1: r1, rs2: r2, rd: rdn })
        } else if funct7_spec(v) == 0b0100000 {
            Some(DecodedInst::Sra { rs1: r1, rs2: r2, rd: rdn })
        } else {
            None
        }
    } else if f3 == 6 {
        Some(DecodedInst::Or { rs1: r1, rs2: r2, rd: rdn })
    } else {
        Some(DecodedInst::And { rs1: r1, rs2: r2, rd: rdn })
    }
}

fn decode_op(rinst: &RawInst, f3: usize) -> (r: Option<DecodedInst>)
    ensures
        r == decode_op_spec(rinst.raw as u64, f3),
        r is Some ==> inst_regs_wf(r->0),
{
    let r1 = rs1(rinst) as usize;
    let r2 = rs2(rinst) as usize;
    let rdn = rd(rinst) as usize;
    if f3 == 0 {
        let f7 = funct7_32(rinst);
        if f7 == 0 {
            Some(DecodedInst::Add { rs1: r1, rs2: r2, rd: rdn })
        } else if f7 == 0b0100000 {
            Some(DecodedInst::Sub { rs1: r1, rs2: r2, rd: rdn })
        } else {
            None
        }
    } else if f3 == 1 {
        Some(DecodedInst::Sll { rs1: r1, rs2: r2, rd: rdn })
    } else if f3 == 2 {
        Some(DecodedInst::Slt { rs1: r1, rs2: r2, rd: rdn })
    } else if f3 == 3 {
        Some(DecodedInst::Sltu { rs1: r1, rs2: r2, rd: rdn })
    } else if f3 == 4 {
        Some(DecodedInst::Xor { rs1: r1, rs2: r2, rd: rdn })
    } else if f3 == 5 {
        let f7 = funct7_32(rinst);
        if f7 == 0 {
            Some(DecodedInst::Srl { rs1: r1, rs2: r2, rd: rdn })
        } else if f7 == 0b0100000 {
            Some(DecodedInst::Sra { rs1: r1, rs2: r2, rd: rdn })
        } else {
            None
        }
    } else if f3 == 6 {
        Some(DecodedInst::Or { rs1: r1, rs2: r2, rd: rdn })
    } else {
        Some(DecodedInst::And { rs1: r1, rs2: r2, rd: rdn })
    }
}

/// The word-width register-register group.
pub open spec fn decode_op32_spec(v: u64, f3: usize) -> Option<DecodedInst> {
    let r1 = rs1_spec(v) as usize;
    let r2 = rs2_spec(v) as usize;
    let rdn = rd_spec(v) as usize;
    if f3 == 0 {
        if funct7_spec(v) == 0 {
            Some(DecodedInst::Addw { rs1: r1, rs2: r2, rd: rdn })
        } else if funct7_spec(v) == 0b0100000 {
            Some(DecodedInst::Subw { rs1: r1, rs2: r2, rd: rdn })
        } else {
            None
        }
    } else if f3 == 1 {
        Some(DecodedInst::Sllw { rs1: r1, rs2: r2, rd: rdn })
    } else if f3 == 5 {
        if funct7_spec(v) == 0 {
            Some(DecodedInst::Srlw { rs1: r1, rs2: r2, rd: rdn })
        } else if funct7_spec(v) == 0b0100000 {
            Some(DecodedInst::Sraw { rs1: r1, rs2: r2, rd: rdn })
        } else {
            None
        }
    } else {
        None
    }
}

fn decode_op32(rinst: &RawInst, f3: usize) -> (r: Option<DecodedInst>)
    ensures
        r == decode_op32_spec(rinst.raw as u64, f3),
        r is Some ==> inst_regs_wf(r->0),
{
    let r1 = rs1(rinst) as usize;
    let r2 = rs2(rinst) as usize;
    let rdn = rd(rinst) as usize;
    if f3 == 0 {
        let f7 = funct7_32(rinst);
        if f7 == 0 {
            Some(DecodedInst::Addw { rs1: r1, rs2: r2, rd: rdn })
        } else if f7 == 0b0100000 {
            Some(DecodedInst::Subw { rs1: r1, rs2: r2, rd: rdn })
        } else {
            None
        }
    } else if f3 == 1 {
        Some(DecodedInst::Sllw { rs1: r1, rs2: r2, rd: rdn })
    } else if f3 == 5 {
        let f7 = funct7_32(rinst);
        if f7 == 0 {
            Some(DecodedInst::Srlw { rs1: r1, rs2: r2, rd: rdn })
        } else if f7 == 0b0100000 {
            Some(DecodedInst::Sraw { rs1: r1, rs2: r2, rd: rdn })
        } else {
            None
        }
    } else {
        None
    }
}

/// The register-immediate group; shift amounts keep six bits.
pub open spec fn decode_opimm_spec(v: u64, f3: usize) -> Option<DecodedInst> {
    let r1 = rs1_spec(v) as usize;
    let rdn = rd_spec(v) as usize;
    if f3 == 0 {
        Some(DecodedInst::Addi { rs1: r1, rd: rdn, imm: imm_i_spec(v) })
    } else if f3 == 2 {
        Some(DecodedInst::Slti { rs1: r1, rd: rdn, imm: imm_i_spec(v) })
    } else if f3 == 3 {
        Some(DecodedInst::Sltiu { rs1: r1, rd: rdn, imm: imm_i_spec(v) })
    } else if f3 == 4 {
        Some(DecodedInst::Xori { rs1: r1, rd: rdn, imm: imm_i_spec(v) })
    } else if f3 == 6 {
        Some(DecodedInst::Ori { rs1: r1, rd: rdn, imm: imm_i_spec(v) })
    } else if f3 == 7 {
        Some(DecodedInst::Andi { rs1: r1, rd: rdn, imm: imm_i_spec(v) })
    } else if f3 == 1 {
        Some(DecodedInst::Slli { rs1: r1, rd: rdn, shamt: imm_i_spec(v) & 0x3F })
    } else {
        if get_spec(v, 26, 31) == 0 {
            Some(DecodedInst::Srli { rs1: r1, rd: rdn, shamt: imm_i_spec(v) & 0x3F })
        } else if get_spec(v, 26, 31) == 0b010000 {
            Some(DecodedInst::Srai { rs1: r1, rd: rdn, shamt: imm_i_spec(v) & 0x3F })
        } else {
            None
        }
    }
}

fn decode_opimm(rinst: &RawInst, f3: usize) -> (r: Option<DecodedInst>)
    ensures
        r == decode_opimm_spec(rinst.raw as u64, f3),
        r is Some ==> inst_regs_wf(r->0),
{
    let v = rinst.raw as u64;
    let r1 = rs1(rinst) as usize;
    let rdn = rd(rinst) as usize;
    if f3 == 0 {
        Some(DecodedInst::Addi { rs1: r1, rd: rdn, imm: imm_i(v) })
    } else if f3 == 2 {
        Some(DecodedInst::Slti { rs1: r1, rd: rdn, imm: imm_i(v) })
    } else if f3 == 3 {
        Some(DecodedInst::Sltiu { rs1: r1, rd: rdn, imm: imm_i(v) })
    } else if f3 == 4 {
        Some(DecodedInst::Xori { rs1: r1, rd: rdn, imm: imm_i(v) })
    } else if f3 == 6 {
        Some(DecodedInst::Ori { rs1: r1, rd: rdn, imm: imm_i(v) })
    } else if f3 == 7 {
        Some(DecodedInst::Andi { rs1: r1, rd: rdn, imm: imm_i(v) })
    } else if f3 == 1 {
        Some(DecodedInst::Slli { rs1: r1, rd: rdn, shamt: imm_i(v) & 0x3F })
    } else {
        let funct6 = bit_range_get(v, BitRange(26, 31));
        if funct6 == 0 {
            Some(DecodedInst::Srli { rs1: r1, rd: rdn, shamt: imm_i(v) & 0x3F })
        } else if funct6 == 0b010000 {
            Some(DecodedInst::Srai { rs1: r1, rd: rdn, shamt: imm_i(v) & 0x3F })
        } else {
            None
        }
    }
}

/// The word-width register-immediate group; shift amounts keep five bits.
pub open spec fn decode_opimm32_spec(v: u64, f3: usize) -> Option<DecodedInst> {
    let r1 = rs1_spec(v) as usize;
    let rdn = rd_spec(v) as usize;
    if f3 == 0 {
        Some(DecodedInst::Addiw { rs1: r1, rd: rdn, imm: imm_i_spec(v) })
    } else if f3 == 1 {
        Some(DecodedInst::Slliw { rs1: r1, rd: rdn, shamt: imm_i_spec(v) & 0x1F })
    } else if f3 == 5 {
        if funct7_spec(v) == 0 {
            Some(DecodedInst::Srliw { rs1: r1, rd: rdn, shamt: imm_i_spec(v) & 0x1F })
        } else if funct7_spec(v) == 0b0100000 {
            Some(DecodedInst::Sraiw { rs1: r1, rd: rdn, shamt: imm_i_spec(v) & 0x1F })
        } else {
            None
        }
    } else {
        None
    }
}

fn decode_opimm32(rinst: &RawInst, f3: usize) -> (r: Option<DecodedInst>)
    ensures
        r == decode_opimm32_spec(rinst.raw as u64, f3),
        r is Some ==> inst_regs_wf(r->0),
{
    let v = rinst.raw as u64;
    let r1 = rs1(rinst) as usize;
    let rdn = rd(rinst) as usize;
    if f3 == 0 {
        Some(DecodedInst::Addiw { rs1: r1, rd: rdn, imm: imm_i(v) })
    } else if f3 == 1 {
        Some(DecodedInst::Slliw { rs1: r1, rd: rdn, shamt: imm_i(v) & 0x1F })
    } else if f3 == 5 {
        let f7 = funct7_32(rinst);
        if f7 == 0 {
            Some(DecodedInst::Srliw { rs1: r1, rd: rdn, shamt: imm_i(v) & 0x1F })
        } else if f7 == 0b0100000 {
            Some(DecodedInst::Sraiw { rs1: r1, rd: rdn, shamt: imm_i(v) & 0x1F })
        } else {
            None
        }
    } else {
        None
    }
}

/// Compressed quadrant 0: stack-frame allocation and the three-bit-register
/// loads and stores.
pub open spec fn decode_c0_spec(v: u64, f3: usize) -> Option<DecodedInst> {
    let r1 = (rs1_c_spec(v) + 8) as usize;
    let r2 = (rs2_c_spec(v) + 8) as usize;
    if f3 == 0 {
        Some(DecodedInst::CAddi4spn { rd: r2, imm: imm_c0_addi4spn_spec(v) })
    } else if f3 == 1 {
        Some(
            DecodedInst::CLoad {
                width: CLoadStoreWidth::Cfd,
                rs1: r1,
                rd: r2,
                imm: imm_c0_lsd_spec(v),
            },
        )
    } else if f3 == 2 {
        Some(
            DecodedInst::CLoad {
                width: CLoadStoreWidth::Cw,
                rs1: r1,
                rd: r2,
                imm: imm_c0_lsw_spec(v),
            },
        )
    } else if f3 == 3 {
        Some(
            DecodedInst::CLoad {
                width: CLoadStoreWidth::Cd,
                rs1: r1,
                rd: r2,
                imm: imm_c0_lsd_spec(v),
            },
        )
    } else if f3 == 5 {
        Some(
            DecodedInst::CStore {
                width: CLoadStoreWidth::Cfd,
                rs1: r1,
                rs2: r2,
                imm: imm_c0_lsd_spec(v),
            },
        )
    } else if f3 == 6 {
        Some(
            DecodedInst::CStore {
                width: CLoadStoreWidth::Cw,
                rs1: r1,
                rs2: r2,
                imm: imm_c0_lsw_spec(v),
            },
        )
    } else if f3 == 7 {
        Some(
            DecodedInst::CStore {
                width: CLoadStoreWidth::Cd,
                rs1: r1,
                rs2: r2,
                imm: imm_c0_lsd_spec(v),
            },
        )
    } else {
        None
    }
}

fn decode_c0(rinst: &RawInst, f3: usize) -> (r: Option<DecodedInst>)
    ensures
        r == decode_c0_spec(rinst.raw as u64, f3),
        r is Some ==> inst_regs_wf(r->0),
{
    let v = rinst.raw as u64;
    let r1 = rs1_c(rinst) as usize + 8;
    let r2 = rs2_c(rinst) as usize + 8;
    if f3 == 0 {
        Some(DecodedInst::CAddi4spn { rd: r2, imm: imm_c0_addi4spn(v) })
    } else if f3 == 1 {
        Some(
            DecodedInst::CLoad { width: CLoadStoreWidth::Cfd, rs1: r1, rd: r2, imm: imm_c0_lsd(v) },
        )
    } else if f3 == 2 {
        Some(
            DecodedInst::CLoad { width: CLoadStoreWidth::Cw, rs1: r1, rd: r2, imm: imm_c0_lsw(v) },
        )
    } else if f3 == 3 {
        Some(
            DecodedInst::CLoad { width: CLoadStoreWidth::Cd, rs1: r1, rd: r2, imm: imm_c0_lsd(v) },
        )
    } else if f3 == 5 {
        Some(
            DecodedInst::CStore {
                width: CLoadStoreWidth::Cfd,
                rs1: r1,
                rs2: r2,
                imm: imm_c0_lsd(v),
            },
        )
    } else if f3 == 6 {
        Some(
            DecodedInst::CStore { width: CLoadStoreWidth::Cw, rs1: r1, rs2: r2, imm: imm_c0_lsw(v) },
        )
    } else if f3 == 7 {
        Some(
            DecodedInst::CStore { width: CLoadStoreWidth::Cd, rs1: r1, rs2: r2, imm: imm_c0_lsd(v) },
        )
    } else {
        None
    }
}

/// Compressed quadrant 1: constants, stack adjustment, the three-bit-register
/// arithmetic group, jumps and branches.
pub open spec fn decode_c1_spec(v: u64, f3: usize) -> Option<DecodedInst> {
    if f3 == 0 {
        Some(DecodedInst::CAddi { rsrd: rd_spec(v) as usize, imm: imm_c1_opimm_spec(v) })
    } else if f3 == 1 {
        Some(DecodedInst::CAddiw { rsrd: rd_spec(v) as usize, imm: imm_c1_opimm_spec(v) })
    } else if f3 == 2 {
        Some(DecodedInst::CLi { rd: rd_spec(v) as usize, imm: imm_c1_opimm_spec(v) })
    } else if f3 == 3 {
        if rd_spec(v) == 2 {
            Some(DecodedInst::CAddi16sp { imm: imm_c1_addi16sp_spec(v) })
        } else {
            Some(DecodedInst::CLui { rd: rd_spec(v) as usize, imm: imm_c1_lui_spec(v) })
        }
    } else if f3 == 4 {
        let rsrd = (rs1_c_spec(v) + 8) as usize;
        let r2 = (rs2_c_spec(v) + 8) as usize;
        let b12 = get_spec(v, 12, 12);
        let b10_11 = get_spec(v, 10, 11);
        let b5_6 = get_spec(v, 5, 6);
        if b10_11 == 0 {
            Some(DecodedInst::CSrli { rsrd, shamt: imm_c1_opimm_spec(v) })
        } else if b10_11 == 1 {
            Some(DecodedInst::CSrai { rsrd, shamt: imm_c1_opimm_spec(v) })
        } else if b10_11 == 2 {
            Some(DecodedInst::CAndi { rsrd, imm: imm_c1_opimm_spec(v) })
        } else if b12 == 0 && b5_6 == 0 {
            Some(DecodedInst::CSub { rsrd, rs2: r2 })
        } else if b12 == 0 && b5_6 == 1 {
            Some(DecodedInst::CXor { rsrd, rs2: r2 })
        } else if b12 == 0 && b5_6 == 2 {
            Some(DecodedInst::COr { rsrd, rs2: r2 })
        } else if b12 == 0 && b5_6 == 3 {
            Some(DecodedInst::CAnd { rsrd, rs2: r2 })
        } else if b12 == 1 && b5_6 == 0 {
            Some(DecodedInst::CSubw { rsrd, rs2: r2 })
        } else if b12 == 1 && b5_6 == 1 {
            Some(DecodedInst::CAddw { rsrd, rs2: r2 })
        } else {
            None
        }
    } else if f3 == 5 {
        Some(DecodedInst::CJ { imm: imm_c1_j_spec(v) })
    } else if f3 == 6 {
        Some(DecodedInst::CBeqz { rs1: (rs1_c_spec(v) + 8) as usize, imm: imm_c1_bra_spec(v) })
    } else {
        Some(DecodedInst::CBnez { rs1: (rs1_c_spec(v) + 8) as usize, imm: imm_c1_bra_spec(v) })
    }
}

fn decode_c1(rinst: &RawInst, f3: usize) -> (r: Option<DecodedInst>)
    ensures
        r == decode_c1_spec(rinst.raw as u64, f3),
        r is Some ==> inst_regs_wf(r->0),
{
    let v = rinst.raw as u64;
    if f3 == 0 {
        Some(DecodedInst::CAddi { rsrd: rd(rinst) as usize, imm: imm_c1_opimm(v) })
    } else if f3 == 1 {
        Some(DecodedInst::CAddiw { rsrd: rd(rinst) as usize, imm: imm_c1_opimm(v) })
    } else if f3 == 2 {
        Some(DecodedInst::CLi { rd: rd(rinst) as usize, imm: imm_c1_opimm(v) })
    } else if f3 == 3 {
        let rdn = rd(rinst);
        if rdn == 2 {
            Some(DecodedInst::CAddi16sp { imm: imm_c1_addi16sp(v) })
        } else {
            Some(DecodedInst::CLui { rd: rdn as usize, imm: imm_c1_lui(v) })
        }
    } else if f3 == 4 {
        let rsrd = rs1_c(rinst) as usize + 8;
        let r2 = rs2_c(rinst) as usize + 8;
        let b12 = bit_range_get(v, BitRange(12, 12));
        let b10_11 = bit_range_get(v, BitRange(10, 11));
        let b5_6 = bit_range_get(v, BitRange(5, 6));
        if b10_11 == 0 {
            Some(DecodedInst::CSrli { rsrd, shamt: imm_c1_opimm(v) })
        } else if b10_11 == 1 {
            Some(DecodedInst::CSrai { rsrd, shamt: imm_c1_opimm(v) })
        } else if b10_11 == 2 {
            Some(DecodedInst::CAndi { rsrd, imm: imm_c1_opimm(v) })
        } else if b12 == 0 && b5_6 == 0 {
            Some(DecodedInst::CSub { rsrd, rs2: r2 })
        } else if b12 == 0 && b5_6 == 1 {
            Some(DecodedInst::CXor { rsrd, rs2: r2 })
        } else if b12 == 0 && b5_6 == 2 {
            Some(DecodedInst::COr { rsrd, rs2: r2 })
        } else if b12 == 0 && b5_6 == 3 {
            Some(DecodedInst::CAnd { rsrd, rs2: r2 })
        } else if b12 == 1 && b5_6 == 0 {
            Some(DecodedInst::CSubw { rsrd, rs2: r2 })
        } else if b12 == 1 && b5_6 == 1 {
            Some(DecodedInst::CAddw { rsrd, rs2: r2 })
        } else {
            None
        }
    } else if f3 == 5 {
        Some(DecodedInst::CJ { imm: imm_c1_j(v) })
    } else if f3 == 6 {
        Some(DecodedInst::CBeqz { rs1: rs1_c(rinst) as usize + 8, imm: imm_c1_bra(v) })
    } else {
        Some(DecodedInst::CBnez { rs1: rs1_c(rinst) as usize + 8, imm: imm_c1_bra(v) })
    }
}

/// Compressed quadrant 2: shifts, stack-relative loads and stores, and the
/// jump/move/add group with full five-bit register fields.
pub open spec fn decode_c2_spec(v: u64, f3: usize) -> Option<DecodedInst> {
    if f3 == 0 {
        Some(DecodedInst::CSlli { rsrd: rd_spec(v) as usize, shamt: imm_c1_opimm_spec(v) })
    } else if f3 == 1 {
        Some(
            DecodedInst::CLoadStack {
                width: CLoadStoreWidth::Cfd,
                rd: rd_spec(v) as usize,
                imm: imm_c2_ld_spec(v),
            },
        )
    } else if f3 == 2 {
        Some(
            DecodedInst::CLoadStack {
                width: CLoadStoreWidth::Cw,
                rd: rd_spec(v) as usize,
                imm: imm_c2_lw_spec(v),
            },
        )
    } else if f3 == 3 {
        Some(
            DecodedInst::CLoadStack {
                width: CLoadStoreWidth::Cd,
                rd: rd_spec(v) as usize,
                imm: imm_c2_ld_spec(v),
            },
        )
    } else if f3 == 4 {
        let b12 = get_spec(v, 12, 12);
        let r1 = rd_spec(v) as usize;
        let r2 = get_spec(v, 2, 6) as usize;
        if b12 == 0 && r2 == 0 {
            Some(DecodedInst::CJr { rs1: r1 })
        } else if b12 == 0 {
            Some(DecodedInst::CMv { rsrd: r1, rs2: r2 })
        } else if r1 == 0 && r2 == 0 {
            Some(DecodedInst::CEBreak)
        } else if r2 == 0 {
            Some(DecodedInst::CJalr { rs1: r1 })
        } else {
            Some(DecodedInst::CAdd { rsrd: r1, rs2: r2 })
        }
    } else if f3 == 5 {
        Some(
            DecodedInst::CStoreStack {
                width: CLoadStoreWidth::Cfd,
                rs2: get_spec(v, 2, 6) as usize,
                imm: imm_c2_sd_spec(v),
            },
        )
    } else if f3 == 6 {
        Some(
            DecodedInst::CStoreStack {
                width: CLoadStoreWidth::Cw,
                rs2: get_spec(v, 2, 6) as usize,
                imm: imm_c2_sw_spec(v),
            },
        )
    } else {
        Some(
            DecodedInst::CStoreStack {
                width: CLoadStoreWidth::Cd,
                rs2: get_spec(v, 2, 6) as usize,
                imm: imm_c2_sd_spec(v),
            },
        )
    }
}

fn decode_c2(rinst: &RawInst, f3: usize) -> (r: Option<DecodedInst>)
    ensures
        r == decode_c2_spec(rinst.raw as u64, f3),
        r is Some ==> inst_regs_wf(r->0),
{
    let v = rinst.raw as u64;
    proof {
        lemma_field_masks();
    }
    if f3 == 0 {
        Some(DecodedInst::CSlli { rsrd: rd(rinst) as usize, shamt: imm_c1_opimm(v) })
    } else if f3 == 1 {
        Some(
            DecodedInst::CLoadStack {
                width: CLoadStoreWidth::Cfd,
                rd: rd(rinst) as usize,
                imm: imm_c2_ld(v),
            },
        )
    } else if f3 == 2 {
        Some(
            DecodedInst::CLoadStack {
                width: CLoadStoreWidth::Cw,
                rd: rd(rinst) as usize,
                imm: imm_c2_lw(v),
            },
        )
    } else if f3 == 3 {
        Some(
            DecodedInst::CLoadStack {
                width: CLoadStoreWidth::Cd,
                rd: rd(rinst) as usize,
                imm: imm_c2_ld(v),
            },
        )
    } else if f3 == 4 {
        let b12 = bit_range_get(v, BitRange(12, 12));
        let r1 = rd(rinst) as usize;
        let r2 = bit_range_get(v, BitRange(2, 6)) as usize;
        if b12 == 0 && r2 == 0 {
            Some(DecodedInst::CJr { rs1: r1 })
        } else if b12 == 0 {
            Some(DecodedInst::CMv { rsrd: r1, rs2: r2 })
        } else if r1 == 0 && r2 == 0 {
            Some(DecodedInst::CEBreak)
        } else if r2 == 0 {
            Some(DecodedInst::CJalr { rs1: r1 })
        } else {
            Some(DecodedInst::CAdd { rsrd: r1, rs2: r2 })
        }
    } else if f3 == 5 {
        Some(
            DecodedInst::CStoreStack {
                width: CLoadStoreWidth::Cfd,
                rs2: bit_range_get(v, BitRange(2, 6)) as usize,
                imm: imm_c2_sd(v),
            },
        )
    } else if f3 == 6 {
        Some(
            DecodedInst::CStoreStack {
                width: CLoadStoreWidth::Cw,
                rs2: bit_range_get(v, BitRange(2, 6)) as usize,
                imm: imm_c2_sw(v),
            },
        )
    } else {
        Some(
            DecodedInst::CStoreStack {
                width: CLoadStoreWidth::Cd,
                rs2: bit_range_get(v, BitRange(2, 6)) as usize,
                imm: imm_c2_sd(v),
            },
        )
    }
}

/// What the decoder recognizes: the tagged value of every well-formed
/// encoding, `None` for an unknown opcode or an ill-formed minor field.
pub open spec fn decode_spec(v: u64) -> Option<DecodedInst> {
    match pre_decode_spec(v) {
        None => None,
        Some(InstSpec(op, f3)) => match op {
            InstOpcode::C0 => decode_c0_spec(v, f3),
            InstOpcode::C1 => decode_c1_spec(v, f3),
            InstOpcode::C2 => decode_c2_spec(v, f3),
            InstOpcode::OP => decode_op_spec(v, f3),
            InstOpcode::OP32 => decode_op32_spec(v, f3),
            InstOpcode::OPIMM => decode_opimm_spec(v, f3),
            InstOpcode::OPIMM32 => decode_opimm32_spec(v, f3),
            InstOpcode::LUI => Some(
                DecodedInst::Lui { rd: rd_spec(v) as usize, imm: imm_u_spec(v) },
            ),
            InstOpcode::AUIPC => Some(
                DecodedInst::Auipc { rd: rd_spec(v) as usize, imm: imm_u_spec(v) },
            ),
            InstOpcode::JAL => Some(
                DecodedInst::Jal { rd: rd_spec(v) as usize, imm: imm_j_spec(v) },
            ),
            InstOpcode::JALR => Some(
                DecodedInst::Jalr {
                    rs1: rs1_spec(v) as usize,
                    rd: rd_spec(v) as usize,
                    imm: imm_i_spec(v),
                },
            ),
            InstOpcode::BRANCH => match branch_type_of_spec(f3 as u64) {
                Some(func) => Some(
                    DecodedInst::Branch {
                        func,
                        rs1: rs1_spec(v) as usize,
                        rs2: rs2_spec(v) as usize,
                        imm: imm_b_spec(v),
                    },
                ),
                None => None,
            },
            InstOpcode::LOAD => match ls_width_of_spec(f3 as u64) {
                Some(width) => Some(
                    DecodedInst::Load {
                        width,
                        rs1: rs1_spec(v) as usize,
                        rd: rd_spec(v) as usize,
                        imm: imm_i_spec(v),
                    },
                ),
                None => None,
            },
            InstOpcode::STORE => match ls_width_of_spec(f3 as u64) {
                Some(width) => Some(
                    DecodedInst::Store {
                        width,
                        rs1: rs1_spec(v) as usize,
                        rs2: rs2_spec(v) as usize,
                        imm: imm_s_spec(v),
                    },
                ),
                None => None,
            },
            InstOpcode::SYSTEM => if f3 == 0 {
                if get_spec(v, 12, 31) == 0 {
                    Some(DecodedInst::ECall)
                } else {
                    Some(DecodedInst::EBreak)
                }
            } else {
                None
            },
            _ => None,
        },
    }
}

/// Decode one fetched instruction. `None` is a fatal decode failure: an
/// unknown opcode or an ill-formed minor field.
pub fn decode(rinst: &RawInst) -> (r: Option<DecodedInst>)
    ensures
        r == decode_spec(rinst.raw as u64),
        r is Some ==> inst_regs_wf(r->0),
{
    let v = rinst.raw as u64;
    let spec = match pre_decode(rinst) {
        Some(s) => s,
        None => {
            return None;
        },
    };
    let InstSpec(op, f3) = spec;
    match op {
        InstOpcode::C0 => decode_c0(rinst, f3),
        InstOpcode::C1 => decode_c1(rinst, f3),
        InstOpcode::C2 => decode_c2(rinst, f3),
        InstOpcode::OP => decode_op(rinst, f3),
        InstOpcode::OP32 => decode_op32(rinst, f3),
        InstOpcode::OPIMM => decode_opimm(rinst, f3),
        InstOpcode::OPIMM32 => decode_opimm32(rinst, f3),
        InstOpcode::LUI => Some(DecodedInst::Lui { rd: rd(rinst) as usize, imm: imm_u(v) }),
        InstOpcode::AUIPC => Some(DecodedInst::Auipc { rd: rd(rinst) as usize, imm: imm_u(v) }),
        InstOpcode::JAL => Some(DecodedInst::Jal { rd: rd(rinst) as usize, imm: imm_j(v) }),
        InstOpcode::JALR => Some(
            DecodedInst::Jalr { rs1: rs1(rinst) as usize, rd: rd(rinst) as usize, imm: imm_i(v) },
        ),
        InstOpcode::BRANCH => match branch_type_of(f3 as u64) {
            Some(func) => Some(
                DecodedInst::Branch {
                    func,
                    rs1: rs1(rinst) as usize,
                    rs2: rs2(rinst) as usize,
                    imm: imm_b(v),
                },
            ),
            None => None,
        },
        InstOpcode::LOAD => match ls_width_of(f3 as u64) {
            Some(width) => Some(
                DecodedInst::Load {
                    width,
                    rs1: rs1(rinst) as usize,
                    rd: rd(rinst) as usize,
                    imm: imm_i(v),
                },
            ),
            None => None,
        },
        InstOpcode::STORE => match ls_width_of(f3 as u64) {
            Some(width) => Some(
                DecodedInst::Store {
                    width,
                    rs1: rs1(rinst) as usize,
                    rs2: rs2(rinst) as usize,
                    imm: imm_s(v),
                },
            ),
            None => None,
        },
        InstOpcode::SYSTEM => {
            if f3 == 0 {
                if bit_range_get(v, BitRange(12, 31)) == 0 {
                    Some(DecodedInst::ECall)
                } else {
                    Some(DecodedInst::EBreak)
                }
            } else {
                None
            }
        },
        _ => None,
    }
}

} // verus!
