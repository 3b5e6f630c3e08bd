//! The instruction model: the raw fetch record, opcode groupings, and the
//! tagged decoded-instruction value whose immediates are already
//! sign-extended to 64 bits.

use vstd::prelude::*;

verus! {

/// One fetched instruction: the program counter it came from and its raw
/// bits. A compressed encoding sits zero-extended in the low 16 bits.
#[derive(Debug, Clone, Copy, PartialEq, Eq, Structural)]
pub struct RawInst {
    pub pc: u64,
    pub raw: u32,
}

/// Machine word widths of the instruction-set family.
#[derive(Debug, Clone, Copy, PartialEq, Eq, Structural)]
pub enum ArchWidth {
    RV32,
    RV64,
    RV128,
}

/// Minor opcode of the register-register group.
#[derive(Debug, Clone, Copy, PartialEq, Eq, Structural)]
pub enum OpFunct {
    AddSub,
    Sll,
    Slt,
    Sltu,
    Xor,
    SrlSra,
    Or,
    And,
}

/// Access widths of loads and stores; the `U` forms zero-extend.
#[derive(Debug, Clone, Copy, PartialEq, Eq, Structural)]
pub enum LoadStoreWidth {
    Byte,
    Half,
    Word,
    Double,
    ByteU,
    HalfU,
    WordU,
}

/// Branch comparison kinds; `Lt`/`Ge` are signed, `Ltu`/`Geu` unsigned.
#[derive(Debug, Clone, Copy, PartialEq, Eq, Structural)]
pub enum BranchType {
    Eq,
    Neq,
    Lt,
    Ge,
    Ltu,
    Geu,
}

/// Access widths of the compressed loads and stores; `Cfd` is the
/// floating-point double form, which this machine does not implement.
#[derive(Debug, Clone, Copy, PartialEq, Eq, Structural)]
pub enum CLoadStoreWidth {
    Cfd,
    Cw,
    Cd,
}

/// Top-level opcode groups: the three compressed quadrants and the 7-bit
/// major opcodes of the full-width encoding.
#[derive(Debug, Clone, Copy, PartialEq, Eq, Structural)]
pub enum InstOpcode {
    C0,
    C1,
    C2,
    LOAD,
    STORE,
    MADD,
    BRANCH,
    LOADFP,
    STOREFP,
    MSUB,
    JALR,
    CUSTOM0,
    CUSTOM1,
    NMSUB,
    MISCMEM,
    AMO,
    NMADD,
    JAL,
    OPIMM,
    OP,
    OPFP,
    SYSTEM,
    AUIPC,
    LUI,
    OPIMM32,
    OP32,
    CUSTOM2,
    CUSTOM3,
}

/// An opcode group together with its three-bit minor opcode.
#[derive(Debug, Clone, Copy, PartialEq, Eq, Structural)]
pub struct InstSpec(pub InstOpcode, pub usize);

/// The full-width major opcode encoded by the low seven bits, where the low
/// two bits are `11`.
pub open spec fn opcode_of_bits_spec(bits: u64) -> Option<InstOpcode> {
    if bits == 0b0000011 {
        Some(InstOpcode::LOAD)
    } else if bits == 0b0100011 {
        Some(InstOpcode::STORE)
    } else if bits == 0b1000011 {
        Some(InstOpcode::MADD)
    } else if bits == 0b1100011 {
        Some(InstOpcode::BRANCH)
    } else if bits == 0b0000111 {
        Some(InstOpcode::LOADFP)
    } else if bits == 0b0100111 {
        Some(InstOpcode::STOREFP)
    } else if bits == 0b1000111 {
        Some(InstOpcode::MSUB)
    } else if bits == 0b1100111 {
        Some(InstOpcode::JALR)
    } else if bits == 0b0001011 {
        Some(InstOpcode::CUSTOM0)
    } else if bits == 0b0101011 {
        Some(InstOpcode::CUSTOM1)
    } else if bits == 0b1001011 {
        Some(InstOpcode::NMSUB)
    } else if bits == 0b0001111 {
        Some(InstOpcode::MISCMEM)
    } else if bits == 0b0101111 {
        Some(InstOpcode::AMO)
    } else if bits == 0b1001111 {
        Some(InstOpcode::NMADD)
    } else if bits == 0b1101111 {
        Some(InstOpcode::JAL)
    } else if bits == 0b0010011 {
        Some(InstOpcode::OPIMM)
    } else if bits == 0b0110011 {
        Some(InstOpcode::OP)
    } else if bits == 0b1010011 {
        Some(InstOpcode::OPFP)
    } else if bits == 0b1110011 {
        Some(InstOpcode::SYSTEM)
    } else if bits == 0b0010111 {
        Some(InstOpcode::AUIPC)
    } else if bits == 0b0110111 {
        Some(InstOpcode::LUI)
    } else if bits == 0b0011011 {
        Some(InstOpcode::OPIMM32)
    } else if bits == 0b0111011 {
        Some(InstOpcode::OP32)
    } else if bits == 0b1011011 {
        Some(InstOpcode::CUSTOM2)
    } else if bits == 0b1111011 {
        Some(InstOpcode::CUSTOM3)
    } else {
        None
    }
}

/// Look up the full-width major opcode of the low seven bits.
pub fn opcode_of_bits(bits: u64) -> (r: Option<InstOpcode>)
    ensures
        r == opcode_of_bits_spec(bits),
{
    if bits == 0b0000011 {
        Some(InstOpcode::LOAD)
    } else if bits == 0b0100011 {
        Some(InstOpcode::STORE)
    } else if bits == 0b1000011 {
        Some(InstOpcode::MADD)
    } else if bits == 0b1100011 {
        Some(InstOpcode::BRANCH)
    } else if bits == 0b0000111 {
        Some(InstOpcode::LOADFP)
    } else if bits == 0b0100111 {
        Some(InstOpcode::STOREFP)
    } else if bits == 0b1000111 {
        Some(InstOpcode::MSUB)
    } else if bits == 0b1100111 {
        Some(InstOpcode::JALR)
    } else if bits == 0b0001011 {
        Some(InstOpcode::CUSTOM0)
    } else if bits == 0b0101011 {
        Some(InstOpcode::CUSTOM1)
    } else if bits == 0b1001011 {
        Some(InstOpcode::NMSUB)
    } else if bits == 0b0001111 {
        Some(InstOpcode::MISCMEM)
    } else if bits == 0b0101111 {
        Some(InstOpcode::AMO)
    } else if bits == 0b1001111 {
        Some(InstOpcode::NMADD)
    } else if bits == 0b1101111 {
        Some(InstOpcode::JAL)
    } else if bits == 0b0010011 {
        Some(InstOpcode::OPIMM)
    } else if bits == 0b0110011 {
        Some(InstOpcode::OP)
    } else if bits == 0b1010011 {
        Some(InstOpcode::OPFP)
    } else if bits == 0b1110011 {
        Some(InstOpcode::SYSTEM)
    } else if bits == 0b0010111 {
        Some(InstOpcode::AUIPC)
    } else if bits == 0b0110111 {
        Some(InstOpcode::LUI)
    } else if bits == 0b0011011 {
        Some(InstOpcode::OPIMM32)
    } else if bits == 0b0111011 {
        Some(InstOpcode::OP32)
    } else if bits == 0b1011011 {
        Some(InstOpcode::CUSTOM2)
    } else if bits == 0b1111011 {
        Some(InstOpcode::CUSTOM3)
    } else {
        None
    }
}

/// The branch kind the minor opcode selects.
pub open spec fn branch_type_of_spec(funct3: u64) -> Option<BranchType> {
    if funct3 == 0 {
        Some(BranchType::Eq)
    } else if funct3 == 1 {
        Some(BranchType::Neq)
    } else if funct3 == 4 {
        Some(BranchType::Lt)
    } else if funct3 == 5 {
        Some(BranchType::Ge)
    } else if funct3 == 6 {
        Some(BranchType::Ltu)
    } else if funct3 == 7 {
        Some(BranchType::Geu)
    } else {
        None
    }
}

/// Look up the branch kind of a minor opcode.
pub fn branch_type_of(funct3: u64) -> (r: Option<BranchType>)
    ensures
        r == branch_type_of_spec(funct3),
{
    if funct3 == 0 {
        Some(BranchType::Eq)
    } else if funct3 == 1 {
        Some(BranchType::Neq)
    } else if funct3 == 4 {
        Some(BranchType::Lt)
    } else if funct3 == 5 {
        Some(BranchType::Ge)
    } else if funct3 == 6 {
        Some(BranchType::Ltu)
    } else if funct3 == 7 {
        Some(BranchType::Geu)
    } else {
        None
    }
}

/// The load/store width the minor opcode selects.
pub open spec fn ls_width_of_spec(funct3: u64) -> Option<LoadStoreWidth> {
    if funct3 == 0 {
        Some(LoadStoreWidth::Byte)
    } else if funct3 == 1 {
        Some(LoadStoreWidth::Half)
    } else if funct3 == 2 {
        Some(LoadStoreWidth::Word)
    } else if funct3 == 3 {
        Some(LoadStoreWidth::Double)
    } else if funct3 == 4 {
        Some(LoadStoreWidth::ByteU)
    } else if funct3 == 5 {
        Some(LoadStoreWidth::HalfU)
    } else if funct3 == 6 {
        Some(LoadStoreWidth::WordU)
    } else {
        None
    }
}

/// Look up the load/store width of a minor opcode.
pub fn ls_width_of(funct3: u64) -> (r: Option<LoadStoreWidth>)
    ensures
        r == ls_width_of_spec(funct3),
{
    if funct3 == 0 {
        Some(LoadStoreWidth::Byte)
    } else if funct3 == 1 {
        Some(LoadStoreWidth::Half)
    } else if funct3 == 2 {
        Some(LoadStoreWidth::Word)
    } else if funct3 == 3 {
        Some(LoadStoreWidth::Double)
    } else if funct3 == 4 {
        Some(LoadStoreWidth::ByteU)
    } else if funct3 == 5 {
        Some(LoadStoreWidth::HalfU)
    } else if funct3 == 6 {
        Some(LoadStoreWidth::WordU)
    } else {
        None
    }
}

/// The tagged decoded instruction. Every immediate is stored already
/// sign-extended to 64 bits; register indices are architectural numbers.
#[derive(Debug, Clone, Copy, PartialEq, Eq, Structural)]
#[allow(inconsistent_fields)]
pub enum DecodedInst {
    // Register-register
    Add { rs1: usize, rs2: usize, rd: usize },
    Sub { rs1: usize, rs2: usize, rd: usize },
    Sll { rs1: usize, rs2: usize, rd: usize },
    Slt { rs1: usize, rs2: usize, rd: usize },
    Sltu { rs1: usize, rs2: usize, rd: usize },
    Xor { rs1: usize, rs2: usize, rd: usize },
    Srl { rs1: usize, rs2: usize, rd: usize },
    Sra { rs1: usize, rs2: usize, rd: usize },
    Or { rs1: usize, rs2: usize, rd: usize },
    And { rs1: usize, rs2: usize, rd: usize },
    // Register-immediate
    Addi { rs1: usize, rd: usize, imm: u64 },
    Slti { rs1: usize, rd: usize, imm: u64 },
    Sltiu { rs1: usize, rd: usize, imm: u64 },
    Xori { rs1: usize, rd: usize, imm: u64 },
    Ori { rs1: usize, rd: usize, imm: u64 },
    Andi { rs1: usize, rd: usize, imm: u64 },
    Slli { rs1: usize, rd: usize, shamt: u64 },
    Srli { rs1: usize, rd: usize, shamt: u64 },
    Srai { rs1: usize, rd: usize, shamt: u64 },
    // Word-width register-register
    Addw { rs1: usize, rs2: usize, rd: usize },
    Subw { rs1: usize, rs2: usize, rd: usize },
    Sllw { rs1: usize, rs2: usize, rd: usize },
    Srlw { rs1: usize, rs2: usize, rd: usize },
    Sraw { rs1: usize, rs2: usize, rd: usize },
    // Word-width register-immediate
    Addiw { rs1: usize, rd: usize, imm: u64 },
    Slliw { rs1: usize, rd: usize, shamt: u64 },
    Srliw { rs1: usize, rd: usize, shamt: u64 },
    Sraiw { rs1: usize, rd: usize, shamt: u64 },
    // Upper-immediate, jumps, branches, memory
    Lui { rd: usize, imm: u64 },
    Auipc { rd: usize, imm: u64 },
    Jal { rd: usize, imm: u64 },
    Jalr { rs1: usize, rd: usize, imm: u64 },
    Branch { func: BranchType, rs1: usize, rs2: usize, imm: u64 },
    Load { width: LoadStoreWidth, rs1: usize, rd: usize, imm: u64 },
    Store { width: LoadStoreWidth, rs1: usize, rs2: usize, imm: u64 },
    // System
    ECall,
    EBreak,
    // Compressed quadrant 0
    CAddi4spn { rd: usize, imm: u64 },
    CLoad { width: CLoadStoreWidth, rs1: usize, rd: usize, imm: u64 },
    CStore { width: CLoadStoreWidth, rs1: usize, rs2: usize, imm: u64 },
    // Compressed quadrant 1
    CAddi { rsrd: usize, imm: u64 },
    CAddiw { rsrd: usize, imm: u64 },
    CLi { rd: usize, imm: u64 },
    CAddi16sp { imm: u64 },
    CLui { rd: usize, imm: u64 },
    CSrli { rsrd: usize, shamt: u64 },
    CSrai { rsrd: usize, shamt: u64 },
    CAndi { rsrd: usize, imm: u64 },
    CSub { rsrd: usize, rs2: usize },
    CXor { rsrd: usize, rs2: usize },
    COr { rsrd: usize, rs2: usize },
    CAnd { rsrd: usize, rs2: usize },
    CSubw { rsrd: usize, rs2: usize },
    CAddw { rsrd: usize, rs2: usize },
    CJ { imm: u64 },
    CJal { imm: u64 },
    CBeqz { rs1: usize, imm: u64 },
    CBnez { rs1: usize, imm: u64 },
    // Compressed quadrant 2
    CSlli { rsrd: usize, shamt: u64 },
    CLoadStack { width: CLoadStoreWidth, rd: usize, imm: u64 },
    CStoreStack { width: CLoadStoreWidth, rs2: usize, imm: u64 },
    CJr { rs1: usize },
    CMv { rsrd: usize, rs2: usize },
    CEBreak,
    CJalr { rs1: usize },
    CAdd { rsrd: usize, rs2: usize },
}

} // verus!
