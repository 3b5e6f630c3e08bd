//! The architectural state and the stepper: fetch one instruction at the
//! program counter, execute a decoded instruction with exact register, shift,
//! branch and memory semantics, and report how control continues.

use vstd::prelude::*;
use crate::memif::{
    MemIf, mapped_range, read_le, addr_off, wrote_le_2, wrote_le_4, wrote_le_8, same_regions,
    read8, read16, read32, read64, write8, write16, write32, write64, lemma_read_le_bound,
};
use crate::bitops::{sign_ext_spec, sign_ext64};
use crate::rv64alu;
use crate::rv64alu::{wrap64, wrap32, s64, sra_spec, sraw_spec};
use crate::rv64defs::{RawInst, DecodedInst, BranchType, LoadStoreWidth, CLoadStoreWidth};
use crate::rv64inst::inst_regs_wf;
use crate::syscalls::{Syscall, syscall_num_of, syscall_num_of_spec};

verus! {

broadcast use vstd::array::group_array_axioms;

/// The architectural state: the program counter and the 32 general-purpose
/// registers. Register 0 always reads as zero and discards writes.
#[derive(Debug, Clone, Copy, PartialEq, Eq)]
pub struct ArchState {
    pub pc: u64,
    pub regs: [u64; 32],
}

/// How control continues after one step.
#[derive(Debug, Clone, Copy, PartialEq, Eq, Structural)]
pub enum ExecResult {
    /// Normal advance; fetch the next instruction.
    Continue,
    /// A guest call is pending; the driver must serve it and resume.
    Trap,
    /// The guest asked to stop.
    Halt,
}

/// Why a step could not be carried out; each is fatal to the run.
#[derive(Debug, Clone, Copy, PartialEq, Eq, Structural)]
pub enum ExecError {
    /// A load or store touched an address outside the three regions.
    Unmapped,
    /// The instruction is recognized but not implemented.
    Unimplemented,
}

/// The value a register read yields: register 0 is wired to zero.
pub open spec fn reg_val(s: ArchState, i: int) -> u64 {
    if i == 0 {
        0
    } else {
        s.regs@[i]
    }
}

/// The register file after a write: a write to register 0 changes nothing.
pub open spec fn reg_file_upd(rs: Seq<u64>, i: int, v: u64) -> Seq<u64> {
    if i == 0 {
        rs
    } else {
        rs.update(i, v)
    }
}

impl ArchState {
    /// The zeroed state: every register and the program counter at zero.
    pub fn new() -> (r: ArchState)
        ensures
            r.pc == 0,
            forall|i: int| 0 <= i < 32 ==> reg_val(r, i) == 0,
    {
        ArchState { pc: 0, regs: [0u64; 32] }
    }

    /// Read a register; register 0 always yields zero.
    pub fn regr(&self, rnum: usize) -> (r: u64)
        requires
            rnum < 32,
        ensures
            r == reg_val(*self, rnum as int),
    {
        if rnum == 0 {
            0
        } else {
            self.regs[rnum]
        }
    }

    /// Write a register; a write to register 0 is discarded.
    pub fn regw(&mut self, rnum: usize, val: u64)
        requires
            rnum < 32,
        ensures
            final(self).pc == old(self).pc,
            final(self).regs@ == reg_file_upd(old(self).regs@, rnum as int, val),
    {
        if rnum != 0 {
            self.regs[rnum] = val;
        }
    }

    /// Fetch the instruction at the program counter: the halfword there, and
    /// the next one as well when the low two bits say the encoding is full
    /// width. `None` is a fatal fetch fault.
    pub fn fetch_inst<M: MemIf>(&self, mem: &M) -> (r: Option<RawInst>)
        requires
            mem.inv(),
        ensures
            r == fetch_spec(*self, mem),
    {
        proof {
            reveal_with_fuel(crate::memif::p256, 3);
            lemma_read_le_bound(mem, self.pc, 2);
            lemma_read_le_bound(mem, addr_off(self.pc, 2), 2);
        }
        let low = match read16(mem, self.pc) {
            Some(v) => v,
            None => {
                return None;
            },
        };
        if low & 3 == 3 {
            let a2 = rv64alu::add(self.pc, 2);
            let high = match read16(mem, a2) {
                Some(v) => v,
                None => {
                    return None;
                },
            };
            Some(RawInst { pc: self.pc, raw: (high * 0x1_0000 + low) as u32 })
        } else {
            Some(RawInst { pc: self.pc, raw: low as u32 })
        }
    }

    /// Execute one decoded instruction against this state and the memory,
    /// with the machine's exact semantics: `step_rel` says what happened.
    pub fn exec_inst<M: MemIf>(&mut self, mem: &mut M, inst: &DecodedInst) -> (r: Result<
        ExecResult,
        ExecError,
    >)
        requires
            old(mem).inv(),
            inst_regs_wf(*inst),
        ensures
            final(mem).inv(),
            step_rel(*old(self), *old(mem), *inst, *final(self), *final(mem), r),
    {
        match inst {
            DecodedInst::Add { rs1, rs2, rd } => {
                let v = rv64alu::add(self.regr(*rs1), self.regr(*rs2));
                self.regw(*rd, v);
                self.pc = rv64alu::add(self.pc, 4);
                Ok(ExecResult::Continue)
            },
            DecodedInst::Sub { rs1, rs2, rd } => {
                let v = rv64alu::sub(self.regr(*rs1), self.regr(*rs2));
                self.regw(*rd, v);
                self.pc = rv64alu::add(self.pc, 4);
                Ok(ExecResult::Continue)
            },
            DecodedInst::Sll { rs1, rs2, rd } => {
                let v = rv64alu::sll(self.regr(*rs1), self.regr(*rs2));
                self.regw(*rd, v);
                self.pc = rv64alu::add(self.pc, 4);
                Ok(ExecResult::Continue)
            },
            DecodedInst::Slt { rs1, rs2, rd } => {
                let v = rv64alu::slt(self.regr(*rs1), self.regr(*rs2));
                self.regw(*rd, v);
                self.pc = rv64alu::add(self.pc, 4);
                Ok(ExecResult::Continue)
            },
            DecodedInst::Sltu { rs1, rs2, rd } => {
                let v = rv64alu::sltu(self.regr(*rs1), self.regr(*rs2));
                self.regw(*rd, v);
                self.pc = rv64alu::add(self.pc, 4);
                Ok(ExecResult::Continue)
            },
            DecodedInst::Xor { rs1, rs2, rd } => {
                let v = rv64alu::xor(self.regr(*rs1), self.regr(*rs2));
                self.regw(*rd, v);
                self.pc = rv64alu::add(self.pc, 4);
                Ok(ExecResult::Continue)
            },
            DecodedInst::Srl { rs1, rs2, rd } => {
                let v = rv64alu::srl(self.regr(*rs1), self.regr(*rs2));
                self.regw(*rd, v);
                self.pc = rv64alu::add(self.pc, 4);
                Ok(ExecResult::Continue)
            },
            DecodedInst::Sra { rs1, rs2, rd } => {
                let v = rv64alu::sra(self.regr(*rs1), self.regr(*rs2));
                self.regw(*rd, v);
                self.pc = rv64alu::add(self.pc, 4);
                Ok(ExecResult::Continue)
            },
            DecodedInst::Or { rs1, rs2, rd } => {
                let v = rv64alu::or(self.regr(*rs1), self.regr(*rs2));
                self.regw(*rd, v);
                self.pc = rv64alu::add(self.pc, 4);
                Ok(ExecResult::Continue)
            },
            DecodedInst::And { rs1, rs2, rd } => {
                let v = rv64alu::and(self.regr(*rs1), self.regr(*rs2));
                self.regw(*rd, v);
                self.pc = rv64alu::add(self.pc, 4);
                Ok(ExecResult::Continue)
            },
            DecodedInst::Addi { rs1, rd, imm } => {
                let v = rv64alu::add(self.regr(*rs1), *imm);
                self.regw(*rd, v);
                self.pc = rv64alu::add(self.pc, 4);
                Ok(ExecResult::Continue)
            },
            DecodedInst::Slti { rs1, rd, imm } => {
                let v = rv64alu::slt(self.regr(*rs1), *imm);
                self.regw(*rd, v);
                self.pc = rv64alu::add(self.pc, 4);
                Ok(ExecResult::Continue)
            },
            DecodedInst::Sltiu { rs1, rd, imm } => {
                let v = rv64alu::sltu(self.regr(*rs1), *imm);
                self.regw(*rd, v);
                self.pc = rv64alu::add(self.pc, 4);
                Ok(ExecResult::Continue)
            },
            DecodedInst::Xori { rs1, rd, imm } => {
                let v = rv64alu::xor(self.regr(*rs1), *imm);
                self.regw(*rd, v);
                self.pc = rv64alu::add(self.pc, 4);
                Ok(ExecResult::Continue)
            },
            DecodedInst::Ori { rs1, rd, imm } => {
                let v = rv64alu::or(self.regr(*rs1), *imm);
                self.regw(*rd, v);
                self.pc = rv64alu::add(self.pc, 4);
                Ok(ExecResult::Continue)
            },
            DecodedInst::Andi { rs1, rd, imm } => {
                let v = rv64alu::and(self.regr(*rs1), *imm);
                self.regw(*rd, v);
                self.pc = rv64alu::add(self.pc, 4);
                Ok(ExecResult::Continue)
            },
            DecodedInst::Slli { rs1, rd, shamt } => {
                let v = rv64alu::sll(self.regr(*rs1), *shamt);
                self.regw(*rd, v);
                self.pc = rv64alu::add(self.pc, 4);
                Ok(ExecResult::Continue)
            },
            DecodedInst::Srli { rs1, rd, shamt } => {
                let v = rv64alu::srl(self.regr(*rs1), *shamt);
                self.regw(*rd, v);
                self.pc = rv64alu::add(self.pc, 4);
                Ok(ExecResult::Continue)
            },
            DecodedInst::Srai { rs1, rd, shamt } => {
                let v = rv64alu::sra(self.regr(*rs1), *shamt);
                self.regw(*rd, v);
                self.pc = rv64alu::add(self.pc, 4);
                Ok(ExecResult::Continue)
            },
            DecodedInst::Addw { rs1, rs2, rd } => {
                let v = rv64alu::addw(self.regr(*rs1), self.regr(*rs2));
                self.regw(*rd, v);
                self.pc = rv64alu::add(self.pc, 4);
                Ok(ExecResult::Continue)
            },
            DecodedInst::Subw { rs1, rs2, rd } => {
                let v = rv64alu::subw(self.regr(*rs1), self.regr(*rs2));
                self.regw(*rd, v);
                self.pc = rv64alu::add(self.pc, 4);
                Ok(ExecResult::Continue)
            },
            DecodedInst::Sllw { rs1, rs2, rd } => {
                let v = rv64alu::sllw(self.regr(*rs1), self.regr(*rs2));
                self.regw(*rd, v);
                self.pc = rv64alu::add(self.pc, 4);
                Ok(ExecResult::Continue)
            },
            DecodedInst::Srlw { rs1, rs2, rd } => {
                let v = rv64alu::srlw(self.regr(*rs1), self.regr(*rs2));
                self.regw(*rd, v);
                self.pc = rv64alu::add(self.pc, 4);
                Ok(ExecResult::Continue)
            },
            DecodedInst::Sraw { rs1, rs2, rd } => {
                let v = rv64alu::sraw(self.regr(*rs1), self.regr(*rs2));
                self.regw(*rd, v);
                self.pc = rv64alu::add(self.pc, 4);
                Ok(ExecResult::Continue)
            },
            DecodedInst::Addiw { rs1, rd, imm } => {
                let v = rv64alu::addw(self.regr(*rs1), *imm);
                self.regw(*rd, v);
                self.pc = rv64alu::add(self.pc, 4);
                Ok(ExecResult::Continue)
            },
            DecodedInst::Slliw { rs1, rd, shamt } => {
                let v = rv64alu::sllw(self.regr(*rs1), *shamt);
                self.regw(*rd, v);
                self.pc = rv64alu::add(self.pc, 4);
                Ok(ExecResult::Continue)
            },
            DecodedInst::Srliw { rs1, rd, shamt } => {
                let v = rv64alu::srlw(self.regr(*rs1), *shamt);
                self.regw(*rd, v);
                self.pc = rv64alu::add(self.pc, 4);
                Ok(ExecResult::Continue)
            },
            DecodedInst::Sraiw { rs1, rd, shamt } => {
                let v = rv64alu::sraw(self.regr(*rs1), *shamt);
                self.regw(*rd, v);
                self.pc = rv64alu::add(self.pc, 4);
                Ok(ExecResult::Continue)
            },
            DecodedInst::Lui { rd, imm } => {
                self.regw(*rd, *imm);
                self.pc = rv64alu::add(self.pc, 4);
                Ok(ExecResult::Continue)
            },
            DecodedInst::Auipc { rd, imm } => {
                let v = rv64alu::add(self.pc, *imm);
                self.regw(*rd, v);
                self.pc = rv64alu::add(self.pc, 4);
                Ok(ExecResult::Continue)
            },
            DecodedInst::Jal { rd, imm } => {
                let ra = rv64alu::add(self.pc, 4);
                let target = rv64alu::add(self.pc, *imm);
                self.regw(*rd, ra);
                self.pc = target;
                Ok(ExecResult::Continue)
            },
            DecodedInst::Jalr { rs1, rd, imm } => {
                let target = rv64alu::add(self.regr(*rs1), *imm);
                let ra = rv64alu::add(self.pc, 4);
                self.regw(*rd, ra);
                self.pc = target;
                Ok(ExecResult::Continue)
            },
            DecodedInst::Branch { func, rs1, rs2, imm } => {
                let a = self.regr(*rs1);
                let b = self.regr(*rs2);
                proof {
                    crate::rv64alu::lemma_u64_as_i64(a);
                    crate::rv64alu::lemma_u64_as_i64(b);
                }
                let pred = match func {
                    BranchType::Eq => a == b,
                    BranchType::Neq => a != b,
                    BranchType::Lt => (a as i64) < (b as i64),
                    BranchType::Ge => (a as i64) >= (b as i64),
                    BranchType::Ltu => a < b,
                    BranchType::Geu => a >= b,
                };
                if pred {
                    self.pc = rv64alu::add(self.pc, *imm);
                } else {
                    self.pc = rv64alu::add(self.pc, 4);
                }
                Ok(ExecResult::Continue)
            },
            DecodedInst::Load { width, rs1, rd, imm } => {
                let addr = rv64alu::add(self.regr(*rs1), *imm);
                let v = match width {
                    LoadStoreWidth::Byte => match read8(mem, addr) {
                        Some(b) => sign_ext64(8, b),
                        None => {
                            return Err(ExecError::Unmapped);
                        },
                    },
                    LoadStoreWidth::Half => match read16(mem, addr) {
                        Some(b) => sign_ext64(16, b),
                        None => {
                            return Err(ExecError::Unmapped);
                        },
                    },
                    LoadStoreWidth::Word => match read32(mem, addr) {
                        Some(b) => sign_ext64(32, b),
                        None => {
                            return Err(ExecError::Unmapped);
                        },
                    },
                    LoadStoreWidth::Double => match read64(mem, addr) {
                        Some(b) => b,
                        None => {
                            return Err(ExecError::Unmapped);
                        },
                    },
                    LoadStoreWidth::ByteU => match read8(mem, addr) {
                        Some(b) => b,
                        None => {
                            return Err(ExecError::Unmapped);
                        },
                    },
                    LoadStoreWidth::HalfU => match read16(mem, addr) {
                        Some(b) => b,
                        None => {
                            return Err(ExecError::Unmapped);
                        },
                    },
                    LoadStoreWidth::WordU => match read32(mem, addr) {
                        Some(b) => b,
                        None => {
                            return Err(ExecError::Unmapped);
                        },
                    },
                };
                self.regw(*rd, v);
                self.pc = rv64alu::add(self.pc, 4);
                Ok(ExecResult::Continue)
            },
            DecodedInst::Store { width, rs1, rs2, imm } => {
                let addr = rv64alu::add(self.regr(*rs1), *imm);
                let val = self.regr(*rs2);
                let ok = match width {
                    LoadStoreWidth::Byte => write8(mem, addr, val),
                    LoadStoreWidth::Half => write16(mem, addr, val),
                    LoadStoreWidth::Word => write32(mem, addr, val),
                    LoadStoreWidth::Double => write64(mem, addr, val),
                    _ => {
                        return Err(ExecError::Unimplemented);
                    },
                };
                proof {
                    crate::memif::lemma_mapped_range_unfold(&*old(mem), addr);
                }
                if ok {
                    self.pc = rv64alu::add(self.pc, 4);
                    Ok(ExecResult::Continue)
                } else {
                    Err(ExecError::Unmapped)
                }
            },
            DecodedInst::ECall => {
                self.pc = rv64alu::add(self.pc, 4);
                Ok(ExecResult::Trap)
            },
            DecodedInst::EBreak => Ok(ExecResult::Halt),
            DecodedInst::CAddi4spn { rd, imm } => {
                let v = rv64alu::add(self.regr(2), *imm);
                self.regw(*rd, v);
                self.pc = rv64alu::add(self.pc, 2);
                Ok(ExecResult::Continue)
            },
            DecodedInst::CLoad { width, rs1, rd, imm } => {
                let addr = rv64alu::add(self.regr(*rs1), *imm);
                let v = match width {
                    CLoadStoreWidth::Cfd => {
                        return Err(ExecError::Unimplemented);
                    },
                    CLoadStoreWidth::Cw => match read32(mem, addr) {
                        Some(b) => sign_ext64(32, b),
                        None => {
                            return Err(ExecError::Unmapped);
                        },
                    },
                    CLoadStoreWidth::Cd => match read64(mem, addr) {
                        Some(b) => b,
                        None => {
                            return Err(ExecError::Unmapped);
                        },
                    },
                };
                self.regw(*rd, v);
                self.pc = rv64alu::add(self.pc, 2);
                Ok(ExecResult::Continue)
            },
            DecodedInst::CStore { width, rs1, rs2, imm } => {
                let addr = rv64alu::add(self.regr(*rs1), *imm);
                let val = self.regr(*rs2);
                let ok = match width {
                    CLoadStoreWidth::Cfd => {
                        return Err(ExecError::Unimplemented);
                    },
                    CLoadStoreWidth::Cw => write32(mem, addr, val),
                    CLoadStoreWidth::Cd => write64(mem, addr, val),
                };
                proof {
                    crate::memif::lemma_mapped_range_unfold(&*old(mem), addr);
                }
                if ok {
                    self.pc = rv64alu::add(self.pc, 2);
                    Ok(ExecResult::Continue)
                } else {
                    Err(ExecError::Unmapped)
                }
            },
            DecodedInst::CAddi { rsrd, imm } => {
                let v = rv64alu::add(self.regr(*rsrd), *imm);
                self.regw(*rsrd, v);
                self.pc = rv64alu::add(self.pc, 2);
                Ok(ExecResult::Continue)
            },
            DecodedInst::CAddiw { rsrd, imm } => {
                let v = rv64alu::addw(self.regr(*rsrd), *imm);
                self.regw(*rsrd, v);
                self.pc = rv64alu::add(self.pc, 2);
                Ok(ExecResult::Continue)
            },
            DecodedInst::CLi { rd, imm } => {
                self.regw(*rd, *imm);
                self.pc = rv64alu::add(self.pc, 2);
                Ok(ExecResult::Continue)
            },
            DecodedInst::CAddi16sp { imm } => {
                let v = rv64alu::add(self.regr(2), *imm);
                self.regw(2, v);
                self.pc = rv64alu::add(self.pc, 2);
                Ok(ExecResult::Continue)
            },
            DecodedInst::CLui { rd, imm } => {
                self.regw(*rd, *imm);
                self.pc = rv64alu::add(self.pc, 2);
                Ok(ExecResult::Continue)
            },
            DecodedInst::CSrli { rsrd, shamt } => {
                let v = rv64alu::srl(self.regr(*rsrd), *shamt);
                self.regw(*rsrd, v);
                self.pc = rv64alu::add(self.pc, 2);
                Ok(ExecResult::Continue)
            },
            DecodedInst::CSrai { rsrd, shamt } => {
                let v = rv64alu::sra(self.regr(*rsrd), *shamt);
                self.regw(*rsrd, v);
                self.pc = rv64alu::add(self.pc, 2);
                Ok(ExecResult::Continue)
            },
            DecodedInst::CAndi { rsrd, imm } => {
                let v = rv64alu::and(self.regr(*rsrd), *imm);
                self.regw(*rsrd, v);
                self.pc = rv64alu::add(self.pc, 2);
                Ok(ExecResult::Continue)
            },
            DecodedInst::CSub { rsrd, rs2 } => {
                let v = rv64alu::sub(self.regr(*rsrd), self.regr(*rs2));
                self.regw(*rsrd, v);
                self.pc = rv64alu::add(self.pc, 2);
                Ok(ExecResult::Continue)
            },
            DecodedInst::CXor { rsrd, rs2 } => {
                let v = rv64alu::xor(self.regr(*rsrd), self.regr(*rs2));
                self.regw(*rsrd, v);
                self.pc = rv64alu::add(self.pc, 2);
                Ok(ExecResult::Continue)
            },
            DecodedInst::COr { rsrd, rs2 } => {
                let v = rv64alu::or(self.regr(*rsrd), self.regr(*rs2));
                self.regw(*rsrd, v);
                self.pc = rv64alu::add(self.pc, 2);
                Ok(ExecResult::Continue)
            },
            DecodedInst::CAnd { rsrd, rs2 } => {
                let v = rv64alu::and(self.regr(*rsrd), self.regr(*rs2));
                self.regw(*rsrd, v);
                self.pc = rv64alu::add(self.pc, 2);
                Ok(ExecResult::Continue)
            },
            DecodedInst::CSubw { rsrd, rs2 } => {
                let v = rv64alu::subw(self.regr(*rsrd), self.regr(*rs2));
                self.regw(*rsrd, v);
                self.pc = rv64alu::add(self.pc, 2);
                Ok(ExecResult::Continue)
            },
            DecodedInst::CAddw { rsrd, rs2 } => {
                let v = rv64alu::addw(self.regr(*rsrd), self.regr(*rs2));
                self.regw(*rsrd, v);
                self.pc = rv64alu::add(self.pc, 2);
                Ok(ExecResult::Continue)
            },
            DecodedInst::CJ { imm } => {
                self.pc = rv64alu::add(self.pc, *imm);
                Ok(ExecResult::Continue)
            },
            DecodedInst::CJal { imm } => {
                let next_pc = rv64alu::add(self.pc, 2);
                let target = rv64alu::add(self.pc, *imm);
                self.regw(1, next_pc);
                self.pc = target;
                Ok(ExecResult::Continue)
            },
            DecodedInst::CBeqz { rs1, imm } => {
                if self.regr(*rs1) == 0 {
                    self.pc = rv64alu::add(self.pc, *imm);
                } else {
                    self.pc = rv64alu::add(self.pc, 2);
                }
                Ok(ExecResult::Continue)
            },
            DecodedInst::CBnez { rs1, imm } => {
                if self.regr(*rs1) != 0 {
                    self.pc = rv64alu::add(self.pc, *imm);
                } else {
                    self.pc = rv64alu::add(self.pc, 2);
                }
                Ok(ExecResult::Continue)
            },
            DecodedInst::CSlli { rsrd, shamt } => {
                let v = rv64alu::sll(self.regr(*rsrd), *shamt);
                self.regw(*rsrd, v);
                self.pc = rv64alu::add(self.pc, 2);
                Ok(ExecResult::Continue)
            },
            DecodedInst::CLoadStack { width, rd, imm } => {
                let addr = rv64alu::add(self.regr(2), *imm);
                let v = match width {
                    CLoadStoreWidth::Cfd => {
                        return Err(ExecError::Unimplemented);
                    },
                    CLoadStoreWidth::Cw => match read32(mem, addr) {
                        Some(b) => sign_ext64(32, b),
                        None => {
                            return Err(ExecError::Unmapped);
                        },
                    },
                    CLoadStoreWidth::Cd => match read64(mem, addr) {
                        Some(b) => b,
                        None => {
                            return Err(ExecError::Unmapped);
                        },
                    },
                };
                self.regw(*rd, v);
                self.pc = rv64alu::add(self.pc, 2);
                Ok(ExecResult::Continue)
            },
            DecodedInst::CStoreStack { width, rs2, imm } => {
                let addr = rv64alu::add(self.regr(2), *imm);
                let val = self.regr(*rs2);
                let ok = match width {
                    CLoadStoreWidth::Cfd => {
                        return Err(ExecError::Unimplemented);
                    },
                    CLoadStoreWidth::Cw => write32(mem, addr, val),
                    CLoadStoreWidth::Cd => write64(mem, addr, val),
                };
                proof {
                    crate::memif::lemma_mapped_range_unfold(&*old(mem), addr);
                }
                if ok {
                    self.pc = rv64alu::add(self.pc, 2);
                    Ok(ExecResult::Continue)
                } else {
                    Err(ExecError::Unmapped)
                }
            },
            DecodedInst::CJr { rs1 } => {
                self.pc = self.regr(*rs1);
                Ok(ExecResult::Continue)
            },
            DecodedInst::CMv { rsrd, rs2 } => {
                let v = self.regr(*rs2);
                self.regw(*rsrd, v);
                self.pc = rv64alu::add(self.pc, 2);
                Ok(ExecResult::Continue)
            },
            DecodedInst::CEBreak => Ok(ExecResult::Halt),
            DecodedInst::CJalr { rs1 } => {
                let next_pc = rv64alu::add(self.pc, 2);
                let target = self.regr(*rs1);
                self.regw(1, next_pc);
                self.pc = target;
                Ok(ExecResult::Continue)
            },
            DecodedInst::CAdd { rsrd, rs2 } => {
                let v = rv64alu::add(self.regr(*rsrd), self.regr(*rs2));
                self.regw(*rsrd, v);
                self.pc = rv64alu::add(self.pc, 2);
                Ok(ExecResult::Continue)
            },
        }
    }

    /// Pull the pending call out of the registers: the number from register
    /// 17, the seven arguments from registers 10 through 16. `None` is an
    /// unknown call number, fatal to the run.
    pub fn rv64_parse_syscall(&self) -> (r: Option<Syscall>)
        ensures
            r == parse_syscall_spec(*self),
    {
        let raw_num = self.regr(17);
        match syscall_num_of(raw_num) {
            Some(num) => Some(
                Syscall {
                    num,
                    args: [
                        self.regr(10),
                        self.regr(11),
                        self.regr(12),
                        self.regr(13),
                        self.regr(14),
                        self.regr(15),
                        self.regr(16),
                    ],
                },
            ),
            None => None,
        }
    }
}

/// What a fetch at the current program counter yields.
pub open spec fn fetch_spec<M: MemIf>(s: ArchState, m: &M) -> Option<RawInst> {
    if !mapped_range(m, s.pc, 2) {
        None
    } else {
        let low = read_le(m, s.pc, 2) as u64;
        if low & 3 == 3 {
            if mapped_range(m, addr_off(s.pc, 2), 2) {
                Some(
                    RawInst {
                        pc: s.pc,
                        raw: (read_le(m, addr_off(s.pc, 2), 2) * 0x1_0000 + low) as u32,
                    },
                )
            } else {
                None
            }
        } else {
            Some(RawInst { pc: s.pc, raw: low as u32 })
        }
    }
}

/// The registers did not change.
pub open spec fn regs_same(pre: ArchState, post: ArchState) -> bool {
    post.regs@ == pre.regs@
}

/// Exactly register `rd` took the value `v`; a write to register 0 left
/// everything as it was.
pub open spec fn wrote_rd(pre: ArchState, post: ArchState, rd: int, v: u64) -> bool {
    post.regs@ == reg_file_upd(pre.regs@, rd, v)
}

/// The program counter advanced by `w`, wrapping.
pub open spec fn pc_plus(pre: ArchState, post: ArchState, w: u64) -> bool {
    post.pc == wrap64(pre.pc + w)
}

/// Register `rd` took `v`, the program counter advanced by `w`.
pub open spec fn norm_step(pre: ArchState, post: ArchState, rd: int, v: u64, w: u64) -> bool {
    wrote_rd(pre, post, rd, v) && pc_plus(pre, post, w)
}

/// Whether the branch kind takes, on the two register values.
pub open spec fn branch_taken(func: BranchType, a: u64, b: u64) -> bool {
    match func {
        BranchType::Eq => a == b,
        BranchType::Neq => a != b,
        BranchType::Lt => s64(a) < s64(b),
        BranchType::Ge => s64(a) >= s64(b),
        BranchType::Ltu => a < b,
        BranchType::Geu => a >= b,
    }
}

/// How many bytes a load width touches.
pub open spec fn load_width_bytes(w: LoadStoreWidth) -> nat {
    match w {
        LoadStoreWidth::Byte => 1,
        LoadStoreWidth::Half => 2,
        LoadStoreWidth::Word => 4,
        LoadStoreWidth::Double => 8,
        LoadStoreWidth::ByteU => 1,
        LoadStoreWidth::HalfU => 2,
        LoadStoreWidth::WordU => 4,
    }
}

/// The register value a load of the given width writes back: the signed
/// widths sign-extend the memory value, the `U` widths zero-extend it.
pub open spec fn load_result<M: MemIf>(m: &M, w: LoadStoreWidth, addr: u64) -> u64 {
    match w {
        LoadStoreWidth::Byte => sign_ext_spec(8, read_le(m, addr, 1) as u64),
        LoadStoreWidth::Half => sign_ext_spec(16, read_le(m, addr, 2) as u64),
        LoadStoreWidth::Word => sign_ext_spec(32, read_le(m, addr, 4) as u64),
        LoadStoreWidth::Double => read_le(m, addr, 8) as u64,
        LoadStoreWidth::ByteU => read_le(m, addr, 1) as u64,
        LoadStoreWidth::HalfU => read_le(m, addr, 2) as u64,
        LoadStoreWidth::WordU => read_le(m, addr, 4) as u64,
    }
}

/// A memory-free step: registers and counter move, memory and its regions
/// stay, control continues.
pub open spec fn pure_step<M: MemIf>(
    pre: ArchState,
    mpre: M,
    post: ArchState,
    mpost: M,
    r: Result<ExecResult, ExecError>,
    rd: int,
    v: u64,
    w: u64,
) -> bool {
    &&& norm_step(pre, post, rd, v, w)
    &&& mpost == mpre
    &&& r == Ok::<ExecResult, ExecError>(ExecResult::Continue)
}

/// Nothing moved and the step reported `e`.
pub open spec fn fault_step<M: MemIf>(
    pre: ArchState,
    mpre: M,
    post: ArchState,
    mpost: M,
    r: Result<ExecResult, ExecError>,
    e: ExecError,
) -> bool {
    &&& post == pre
    &&& mpost == mpre
    &&& r == Err::<ExecResult, ExecError>(e)
}

/// A load step: from `addr`, `n` bytes wide, into `rd`, advancing by `w`.
pub open spec fn load_step<M: MemIf>(
    pre: ArchState,
    mpre: M,
    post: ArchState,
    mpost: M,
    r: Result<ExecResult, ExecError>,
    addr: u64,
    lw: LoadStoreWidth,
    rd: int,
    w: u64,
) -> bool {
    if mapped_range(&mpre, addr, load_width_bytes(lw)) {
        &&& norm_step(pre, post, rd, load_result(&mpre, lw, addr), w)
        &&& mpost == mpre
        &&& r == Ok::<ExecResult, ExecError>(ExecResult::Continue)
    } else {
        fault_step(pre, mpre, post, mpost, r, ExecError::Unmapped)
    }
}

/// A store step: `val` to `addr`, `n` bytes little-endian, advancing by `w`.
pub open spec fn store_step<M: MemIf>(
    pre: ArchState,
    mpre: M,
    post: ArchState,
    mpost: M,
    r: Result<ExecResult, ExecError>,
    addr: u64,
    n: nat,
    val: u64,
    w: u64,
) -> bool {
    if mapped_range(&mpre, addr, n) {
        &&& regs_same(pre, post)
        &&& pc_plus(pre, post, w)
        &&& same_regions(mpre, mpost)
        &&& if n == 1 {
            mpost.byte_at(addr) == crate::memif::le_byte(val as int, 0) && (forall|a: u64|
                a != addr ==> #[trigger] mpost.byte_at(a) == mpre.byte_at(a))
        } else if n == 2 {
            wrote_le_2(mpre, mpost, addr, val)
        } else if n == 4 {
            wrote_le_4(mpre, mpost, addr, val)
        } else {
            wrote_le_8(mpre, mpost, addr, val)
        }
        &&& r == Ok::<ExecResult, ExecError>(ExecResult::Continue)
    } else {
        fault_step(pre, mpre, post, mpost, r, ExecError::Unmapped)
    }
}

/// What one executed instruction does to the architectural state, the
/// memory, and the control signal: the machine's instruction semantics.
pub open spec fn step_rel<M: MemIf>(
    pre: ArchState,
    mpre: M,
    inst: DecodedInst,
    post: ArchState,
    mpost: M,
    r: Result<ExecResult, ExecError>,
) -> bool {
    match inst {
        DecodedInst::Add { rs1, rs2, rd } => pure_step(
            pre,
            mpre,
            post,
            mpost,
            r,
            rd as int,
            wrap64(reg_val(pre, rs1 as int) + reg_val(pre, rs2 as int)),
            4,
        ),
        DecodedInst::Sub { rs1, rs2, rd } => pure_step(
            pre,
            mpre,
            post,
            mpost,
            r,
            rd as int,
            wrap64(reg_val(pre, rs1 as int) - reg_val(pre, rs2 as int)),
            4,
        ),
        DecodedInst::Sll { rs1, rs2, rd } => pure_step(
            pre,
            mpre,
            post,
            mpost,
            r,
            rd as int,
            reg_val(pre, rs1 as int) << (reg_val(pre, rs2 as int) & 0x3F),
            4,
        ),
        DecodedInst::Slt { rs1, rs2, rd } => pure_step(
            pre,
            mpre,
            post,
            mpost,
            r,
            rd as int,
            if s64(reg_val(pre, rs1 as int)) < s64(reg_val(pre, rs2 as int)) {
                1u64
            } else {
                0u64
            },
            4,
        ),
        DecodedInst::Sltu { rs1, rs2, rd } => pure_step(
            pre,
            mpre,
            post,
            mpost,
            r,
            rd as int,
            if reg_val(pre, rs1 as int) < reg_val(pre, rs2 as int) {
                1u64
            } else {
                0u64
            },
            4,
        ),
        DecodedInst::Xor { rs1, rs2, rd } => pure_step(
            pre,
            mpre,
            post,
            mpost,
            r,
            rd as int,
            reg_val(pre, rs1 as int) ^ reg_val(pre, rs2 as int),
            4,
        ),
        DecodedInst::Srl { rs1, rs2, rd } => pure_step(
            pre,
            mpre,
            post,
            mpost,
            r,
            rd as int,
            reg_val(pre, rs1 as int) >> (reg_val(pre, rs2 as int) & 0x3F),
            4,
        ),
        DecodedInst::Sra { rs1, rs2, rd } => pure_step(
            pre,
            mpre,
            post,
            mpost,
            r,
            rd as int,
            sra_spec(reg_val(pre, rs1 as int), reg_val(pre, rs2 as int)),
            4,
        ),
        DecodedInst::Or { rs1, rs2, rd } => pure_step(
            pre,
            mpre,
            post,
            mpost,
            r,
            rd as int,
            reg_val(pre, rs1 as int) | reg_val(pre, rs2 as int),
            4,
        ),
        DecodedInst::And { rs1, rs2, rd } => pure_step(
            pre,
            mpre,
            post,
            mpost,
            r,
            rd as int,
            reg_val(pre, rs1 as int) & reg_val(pre, rs2 as int),
            4,
        ),
        DecodedInst::Addi { rs1, rd, imm } => pure_step(
            pre,
            mpre,
            post,
            mpost,
            r,
            rd as int,
            wrap64(reg_val(pre, rs1 as int) + imm),
            4,
        ),
        DecodedInst::Slti { rs1, rd, imm } => pure_step(
            pre,
            mpre,
            post,
            mpost,
            r,
            rd as int,
            if s64(reg_val(pre, rs1 as int)) < s64(imm) {
                1u64
            } else {
                0u64
            },
            4,
        ),
        DecodedInst::Sltiu { rs1, rd, imm } => pure_step(
            pre,
            mpre,
            post,
            mpost,
            r,
            rd as int,
            if reg_val(pre, rs1 as int) < imm {
                1u64
            } else {
                0u64
            },
            4,
        ),
        DecodedInst::Xori { rs1, rd, imm } => pure_step(
            pre,
            mpre,
            post,
            mpost,
            r,
            rd as int,
            reg_val(pre, rs1 as int) ^ imm,
            4,
        ),
        DecodedInst::Ori { rs1, rd, imm } => pure_step(
            pre,
            mpre,
            post,
            mpost,
            r,
            rd as int,
            reg_val(pre, rs1 as int) | imm,
            4,
        ),
        DecodedInst::Andi { rs1, rd, imm } => pure_step(
            pre,
            mpre,
            post,
            mpost,
            r,
            rd as int,
            reg_val(pre, rs1 as int) & imm,
            4,
        ),
        DecodedInst::Slli { rs1, rd, shamt } => pure_step(
            pre,
            mpre,
            post,
            mpost,
            r,
            rd as int,
            reg_val(pre, rs1 as int) << (shamt & 0x3F),
            4,
        ),
        DecodedInst::Srli { rs1, rd, shamt } => pure_step(
            pre,
            mpre,
            post,
            mpost,
            r,
            rd as int,
            reg_val(pre, rs1 as int) >> (shamt & 0x3F),
            4,
        ),
        DecodedInst::Srai { rs1, rd, shamt } => pure_step(
            pre,
            mpre,
            post,
            mpost,
            r,
            rd as int,
            sra_spec(reg_val(pre, rs1 as int), shamt),
            4,
        ),
        DecodedInst::Addw { rs1, rs2, rd } => pure_step(
            pre,
            mpre,
            post,
            mpost,
            r,
            rd as int,
            sign_ext_spec(32, wrap32(reg_val(pre, rs1 as int) + reg_val(pre, rs2 as int))),
            4,
        ),
        DecodedInst::Subw { rs1, rs2, rd } => pure_step(
            pre,
            mpre,
            post,
            mpost,
            r,
            rd as int,
            sign_ext_spec(32, wrap32(reg_val(pre, rs1 as int) - reg_val(pre, rs2 as int))),
            4,
        ),
        DecodedInst::Sllw { rs1, rs2, rd } => pure_step(
            pre,
            mpre,
            post,
            mpost,
            r,
            rd as int,
            sign_ext_spec(
                32,
                ((reg_val(pre, rs1 as int) & 0xFFFF_FFFF) << (reg_val(pre, rs2 as int) & 0x1F))
                    & 0xFFFF_FFFF,
            ),
            4,
        ),
        DecodedInst::Srlw { rs1, rs2, rd } => pure_step(
            pre,
            mpre,
            post,
            mpost,
            r,
            rd as int,
            sign_ext_spec(
                32,
                (reg_val(pre, rs1 as int) & 0xFFFF_FFFF) >> (reg_val(pre, rs2 as int) & 0x1F),
            ),
            4,
        ),
        DecodedInst::Sraw { rs1, rs2, rd } => pure_step(
            pre,
            mpre,
            post,
            mpost,
            r,
            rd as int,
            sraw_spec(reg_val(pre, rs1 as int), reg_val(pre, rs2 as int)),
            4,
        ),
        DecodedInst::Addiw { rs1, rd, imm } => pure_step(
            pre,
            mpre,
            post,
            mpost,
            r,
            rd as int,
            sign_ext_spec(32, wrap32(reg_val(pre, rs1 as int) + imm)),
            4,
        ),
        DecodedInst::Slliw { rs1, rd, shamt } => pure_step(
            pre,
            mpre,
            post,
            mpost,
            r,
            rd as int,
            sign_ext_spec(
                32,
                ((reg_val(pre, rs1 as int) & 0xFFFF_FFFF) << (shamt & 0x1F)) & 0xFFFF_FFFF,
            ),
            4,
        ),
        DecodedInst::Srliw { rs1, rd, shamt } => pure_step(
            pre,
            mpre,
            post,
            mpost,
            r,
            rd as int,
            sign_ext_spec(32, (reg_val(pre, rs1 as int) & 0xFFFF_FFFF) >> (shamt & 0x1F)),
            4,
        ),
        DecodedInst::Sraiw { rs1, rd, shamt } => pure_step(
            pre,
            mpre,
            post,
            mpost,
            r,
            rd as int,
            sraw_spec(reg_val(pre, rs1 as int), shamt),
            4,
        ),
        DecodedInst::Lui { rd, imm } => pure_step(pre, mpre, post, mpost, r, rd as int, imm, 4),
        DecodedInst::Auipc { rd, imm } => pure_step(
            pre,
            mpre,
            post,
            mpost,
            r,
            rd as int,
            wrap64(pre.pc + imm),
            4,
        ),
        DecodedInst::Jal { rd, imm } => {
            &&& wrote_rd(pre, post, rd as int, wrap64(pre.pc + 4))
            &&& post.pc == wrap64(pre.pc + imm)
            &&& mpost == mpre
            &&& r == Ok::<ExecResult, ExecError>(ExecResult::Continue)
        },
        DecodedInst::Jalr { rs1, rd, imm } => {
            &&& wrote_rd(pre, post, rd as int, wrap64(pre.pc + 4))
            &&& post.pc == wrap64(reg_val(pre, rs1 as int) + imm)
            &&& mpost == mpre
            &&& r == Ok::<ExecResult, ExecError>(ExecResult::Continue)
        },
        DecodedInst::Branch { func, rs1, rs2, imm } => {
            &&& regs_same(pre, post)
            &&& post.pc == if branch_taken(func, reg_val(pre, rs1 as int), reg_val(pre, rs2 as int)) {
                wrap64(pre.pc + imm)
            } else {
                wrap64(pre.pc + 4)
            }
            &&& mpost == mpre
            &&& r == Ok::<ExecResult, ExecError>(ExecResult::Continue)
        },
        DecodedInst::Load { width, rs1, rd, imm } => load_step(
            pre,
            mpre,
            post,
            mpost,
            r,
            wrap64(reg_val(pre, rs1 as int) + imm),
            width,
            rd as int,
            4,
        ),
        DecodedInst::Store { width, rs1, rs2, imm } => match width {
            LoadStoreWidth::Byte => store_step(
                pre,
                mpre,
                post,
                mpost,
                r,
                wrap64(reg_val(pre, rs1 as int) + imm),
                1,
                reg_val(pre, rs2 as int),
                4,
            ),
            LoadStoreWidth::Half => store_step(
                pre,
                mpre,
                post,
                mpost,
                r,
                wrap64(reg_val(pre, rs1 as int) + imm),
                2,
                reg_val(pre, rs2 as int),
                4,
            ),
            LoadStoreWidth::Word => store_step(
                pre,
                mpre,
                post,
                mpost,
                r,
                wrap64(reg_val(pre, rs1 as int) + imm),
                4,
                reg_val(pre, rs2 as int),
                4,
            ),
            LoadStoreWidth::Double => store_step(
                pre,
                mpre,
                post,
                mpost,
                r,
                wrap64(reg_val(pre, rs1 as int) + imm),
                8,
                reg_val(pre, rs2 as int),
                4,
            ),
            _ => fault_step(pre, mpre, post, mpost, r, ExecError::Unimplemented),
        },
        DecodedInst::ECall => {
            &&& regs_same(pre, post)
            &&& pc_plus(pre, post, 4)
            &&& mpost == mpre
            &&& r == Ok::<ExecResult, ExecError>(ExecResult::Trap)
        },
        DecodedInst::EBreak => {
            &&& post == pre
            &&& mpost == mpre
            &&& r == Ok::<ExecResult, ExecError>(ExecResult::Halt)
        },
        DecodedInst::CAddi4spn { rd, imm } => pure_step(
            pre,
            mpre,
            post,
            mpost,
            r,
            rd as int,
            wrap64(reg_val(pre, 2) + imm),
            2,
        ),
        DecodedInst::CLoad { width, rs1, rd, imm } => match width {
            CLoadStoreWidth::Cw => load_step(
                pre,
                mpre,
                post,
                mpost,
                r,
                wrap64(reg_val(pre, rs1 as int) + imm),
                LoadStoreWidth::Word,
                rd as int,
                2,
            ),
            CLoadStoreWidth::Cd => load_step(
                pre,
                mpre,
                post,
                mpost,
                r,
                wrap64(reg_val(pre, rs1 as int) + imm),
                LoadStoreWidth::Double,
                rd as int,
                2,
            ),
            CLoadStoreWidth::Cfd => fault_step(pre, mpre, post, mpost, r, ExecError::Unimplemented),
        },
        DecodedInst::CStore { width, rs1, rs2, imm } => match width {
            CLoadStoreWidth::Cw => store_step(
                pre,
                mpre,
                post,
                mpost,
                r,
                wrap64(reg_val(pre, rs1 as int) + imm),
                4,
                reg_val(pre, rs2 as int),
                2,
            ),
            CLoadStoreWidth::Cd => store_step(
                pre,
                mpre,
                post,
                mpost,
                r,
                wrap64(reg_val(pre, rs1 as int) + imm),
                8,
                reg_val(pre, rs2 as int),
                2,
            ),
            CLoadStoreWidth::Cfd => fault_step(pre, mpre, post, mpost, r, ExecError::Unimplemented),
        },
        DecodedInst::CAddi { rsrd, imm } => pure_step(
            pre,
            mpre,
            post,
            mpost,
            r,
            rsrd as int,
            wrap64(reg_val(pre, rsrd as int) + imm),
            2,
        ),
        DecodedInst::CAddiw { rsrd, imm } => pure_step(
            pre,
            mpre,
            post,
            mpost,
            r,
            rsrd as int,
            sign_ext_spec(32, wrap32(reg_val(pre, rsrd as int) + imm)),
            2,
        ),
        DecodedInst::CLi { rd, imm } => pure_step(pre, mpre, post, mpost, r, rd as int, imm, 2),
        DecodedInst::CAddi16sp { imm } => pure_step(
            pre,
            mpre,
            post,
            mpost,
            r,
            2,
            wrap64(reg_val(pre, 2) + imm),
            2,
        ),
        DecodedInst::CLui { rd, imm } => pure_step(pre, mpre, post, mpost, r, rd as int, imm, 2),
        DecodedInst::CSrli { rsrd, shamt } => pure_step(
            pre,
            mpre,
            post,
            mpost,
            r,
            rsrd as int,
            reg_val(pre, rsrd as int) >> (shamt & 0x3F),
            2,
        ),
        DecodedInst::CSrai { rsrd, shamt } => pure_step(
            pre,
            mpre,
            post,
            mpost,
            r,
            rsrd as int,
            sra_spec(reg_val(pre, rsrd as int), shamt),
            2,
        ),
        DecodedInst::CAndi { rsrd, imm } => pure_step(
            pre,
            mpre,
            post,
            mpost,
            r,
            rsrd as int,
            reg_val(pre, rsrd as int) & imm,
            2,
        ),
        DecodedInst::CSub { rsrd, rs2 } => pure_step(
            pre,
            mpre,
            post,
            mpost,
            r,
            rsrd as int,
            wrap64(reg_val(pre, rsrd as int) - reg_val(pre, rs2 as int)),
            2,
        ),
        DecodedInst::CXor { rsrd, rs2 } => pure_step(
            pre,
            mpre,
            post,
            mpost,
            r,
            rsrd as int,
            reg_val(pre, rsrd as int) ^ reg_val(pre, rs2 as int),
            2,
        ),
        DecodedInst::COr { rsrd, rs2 } => pure_step(
            pre,
            mpre,
            post,
            mpost,
            r,
            rsrd as int,
            reg_val(pre, rsrd as int) | reg_val(pre, rs2 as int),
            2,
        ),
        DecodedInst::CAnd { rsrd, rs2 } => pure_step(
            pre,
            mpre,
            post,
            mpost,
            r,
            rsrd as int,
            reg_val(pre, rsrd as int) & reg_val(pre, rs2 as int),
            2,
        ),
        DecodedInst::CSubw { rsrd, rs2 } => pure_step(
            pre,
            mpre,
            post,
            mpost,
            r,
            rsrd as int,
            sign_ext_spec(32, wrap32(reg_val(pre, rsrd as int) - reg_val(pre, rs2 as int))),
            2,
        ),
        DecodedInst::CAddw { rsrd, rs2 } => pure_step(
            pre,
            mpre,
            post,
            mpost,
            r,
            rsrd as int,
            sign_ext_spec(32, wrap32(reg_val(pre, rsrd as int) + reg_val(pre, rs2 as int))),
            2,
        ),
        DecodedInst::CJ { imm } => {
            &&& regs_same(pre, post)
            &&& post.pc == wrap64(pre.pc + imm)
            &&& mpost == mpre
            &&& r == Ok::<ExecResult, ExecError>(ExecResult::Continue)
        },
        DecodedInst::CJal { imm } => {
            &&& wrote_rd(pre, post, 1, wrap64(pre.pc + 2))
            &&& post.pc == wrap64(pre.pc + imm)
            &&& mpost == mpre
            &&& r == Ok::<ExecResult, ExecError>(ExecResult::Continue)
        },
        DecodedInst::CBeqz { rs1, imm } => {
            &&& regs_same(pre, post)
            &&& post.pc == if reg_val(pre, rs1 as int) == 0 {
                wrap64(pre.pc + imm)
            } else {
                wrap64(pre.pc + 2)
            }
            &&& mpost == mpre
            &&& r == Ok::<ExecResult, ExecError>(ExecResult::Continue)
        },
        DecodedInst::CBnez { rs1, imm } => {
            &&& regs_same(pre, post)
            &&& post.pc == if reg_val(pre, rs1 as int) != 0 {
                wrap64(pre.pc + imm)
            } else {
                wrap64(pre.pc + 2)
            }
            &&& mpost == mpre
            &&& r == Ok::<ExecResult, ExecError>(ExecResult::Continue)
        },
        DecodedInst::CSlli { rsrd, shamt } => pure_step(
            pre,
            mpre,
            post,
            mpost,
            r,
            rsrd as int,
            reg_val(pre, rsrd as int) << (shamt & 0x3F),
            2,
        ),
        DecodedInst::CLoadStack { width, rd, imm } => match width {
            CLoadStoreWidth::Cw => load_step(
                pre,
                mpre,
                post,
                mpost,
                r,
                wrap64(reg_val(pre, 2) + imm),
                LoadStoreWidth::Word,
                rd as int,
                2,
            ),
            CLoadStoreWidth::Cd => load_step(
                pre,
                mpre,
                post,
                mpost,
                r,
                wrap64(reg_val(pre, 2) + imm),
                LoadStoreWidth::Double,
                rd as int,
                2,
            ),
            CLoadStoreWidth::Cfd => fault_step(pre, mpre, post, mpost, r, ExecError::Unimplemented),
        },
        DecodedInst::CStoreStack { width, rs2, imm } => match width {
            CLoadStoreWidth::Cw => store_step(
                pre,
                mpre,
                post,
                mpost,
                r,
                wrap64(reg_val(pre, 2) + imm),
                4,
                reg_val(pre, rs2 as int),
                2,
            ),
            CLoadStoreWidth::Cd => store_step(
                pre,
                mpre,
                post,
                mpost,
                r,
                wrap64(reg_val(pre, 2) + imm),
                8,
                reg_val(pre, rs2 as int),
                2,
            ),
            CLoadStoreWidth::Cfd => fault_step(pre, mpre, post, mpost, r, ExecError::Unimplemented),
        },
        DecodedInst::CJr { rs1 } => {
            &&& regs_same(pre, post)
            &&& post.pc == reg_val(pre, rs1 as int)
            &&& mpost == mpre
            &&& r == Ok::<ExecResult, ExecError>(ExecResult::Continue)
        },
        DecodedInst::CMv { rsrd, rs2 } => pure_step(
            pre,
            mpre,
            post,
            mpost,
            r,
            rsrd as int,
            reg_val(pre, rs2 as int),
            2,
        ),
        DecodedInst::CEBreak => {
            &&& post == pre
            &&& mpost == mpre
            &&& r == Ok::<ExecResult, ExecError>(ExecResult::Halt)
        },
        DecodedInst::CJalr { rs1 } => {
            &&& wrote_rd(pre, post, 1, wrap64(pre.pc + 2))
            &&& post.pc == reg_val(pre, rs1 as int)
            &&& mpost == mpre
            &&& r == Ok::<ExecResult, ExecError>(ExecResult::Continue)
        },
        DecodedInst::CAdd { rsrd, rs2 } => pure_step(
            pre,
            mpre,
            post,
            mpost,
            r,
            rsrd as int,
            wrap64(reg_val(pre, rsrd as int) + reg_val(pre, rs2 as int)),
            2,
        ),
    }
}

/// How many bytes the encoding of the instruction occupies: two for the
/// compressed tags, four for the full-width ones.
pub open spec fn encoding_width(inst: DecodedInst) -> u64 {
    match inst {
        DecodedInst::CAddi4spn { .. } => 2,
        DecodedInst::CLoad { .. } => 2,
        DecodedInst::CStore { .. } => 2,
        DecodedInst::CAddi { .. } => 2,
        DecodedInst::CAddiw { .. } => 2,
        DecodedInst::CLi { .. } => 2,
        DecodedInst::CAddi16sp { .. } => 2,
        DecodedInst::CLui { .. } => 2,
        DecodedInst::CSrli { .. } => 2,
        DecodedInst::CSrai { .. } => 2,
        DecodedInst::CAndi { .. } => 2,
        DecodedInst::CSub { .. } => 2,
        DecodedInst::CXor { .. } => 2,
        DecodedInst::COr { .. } => 2,
        DecodedInst::CAnd { .. } => 2,
        DecodedInst::CSubw { .. } => 2,
        DecodedInst::CAddw { .. } => 2,
        DecodedInst::CJ { .. } => 2,
        DecodedInst::CJal { .. } => 2,
        DecodedInst::CBeqz { .. } => 2,
        DecodedInst::CBnez { .. } => 2,
        DecodedInst::CSlli { .. } => 2,
        DecodedInst::CLoadStack { .. } => 2,
        DecodedInst::CStoreStack { .. } => 2,
        DecodedInst::CJr { .. } => 2,
        DecodedInst::CMv { .. } => 2,
        DecodedInst::CEBreak => 2,
        DecodedInst::CJalr { .. } => 2,
        DecodedInst::CAdd { .. } => 2,
        _ => 4,
    }
}

/// Whether the instruction may set the program counter somewhere other than
/// the next instruction: jumps and branches.
pub open spec fn is_control_transfer(inst: DecodedInst) -> bool {
    match inst {
        DecodedInst::Jal { .. } => true,
        DecodedInst::Jalr { .. } => true,
        DecodedInst::Branch { .. } => true,
        DecodedInst::CJ { .. } => true,
        DecodedInst::CJal { .. } => true,
        DecodedInst::CBeqz { .. } => true,
        DecodedInst::CBnez { .. } => true,
        DecodedInst::CJr { .. } => true,
        DecodedInst::CJalr { .. } => true,
        _ => false,
    }
}

/// Register 0 stays zero across every step: no instruction can write it.
pub proof fn lemma_step_keeps_x0_zero<M: MemIf>(
    pre: ArchState,
    mpre: M,
    inst: DecodedInst,
    post: ArchState,
    mpost: M,
    r: Result<ExecResult, ExecError>,
)
    requires
        step_rel(pre, mpre, inst, post, mpost, r),
        inst_regs_wf(inst),
        pre.regs@[0] == 0,
    ensures
        post.regs@[0] == 0,
        reg_val(post, 0) == 0,
{
    assert(pre.regs@.len() == 32);
    assert(post.regs@[0] == 0) by {
        assert forall|i: int, v: u64|
            0 <= i < 32 implies #[trigger] reg_file_upd(pre.regs@, i, v)[0] == 0 by {
            if i != 0 {
                assert(pre.regs@.update(i, v)[0] == pre.regs@[0]);
            }
        }
    }
}

/// Every instruction that is not a jump or branch, and whose step did not
/// halt or fault, advances the program counter by exactly its encoding
/// width. (A halt keeps the counter where it was, so the breakpoint
/// instructions are left out by the premise on the control signal.)
pub proof fn lemma_step_pc_advance<M: MemIf>(
    pre: ArchState,
    mpre: M,
    inst: DecodedInst,
    post: ArchState,
    mpost: M,
    r: Result<ExecResult, ExecError>,
)
    requires
        step_rel(pre, mpre, inst, post, mpost, r),
        !is_control_transfer(inst),
        r == Ok::<ExecResult, ExecError>(ExecResult::Continue) || r == Ok::<
            ExecResult,
            ExecError,
        >(ExecResult::Trap),
    ensures
        post.pc == wrap64(pre.pc + encoding_width(inst)),
{
}

/// The link is written after the target is read: a register-indirect jump
/// whose link register equals its base register goes to the address the base
/// held before the step, and the link holds the return address.
pub proof fn lemma_jalr_ordering<M: MemIf>(
    pre: ArchState,
    mpre: M,
    rs1: usize,
    rd: usize,
    imm: u64,
    post: ArchState,
    mpost: M,
    r: Result<ExecResult, ExecError>,
)
    requires
        step_rel(pre, mpre, DecodedInst::Jalr { rs1, rd, imm }, post, mpost, r),
        rd == rs1,
        0 < rd < 32,
    ensures
        post.pc == wrap64(reg_val(pre, rs1 as int) + imm),
        reg_val(post, rd as int) == wrap64(pre.pc + 4),
{
}

/// A load of a signed width writes back the two's-complement value of the
/// bytes it read: the register, read as signed, equals the memory value
/// reduced to the access width as a signed integer.
pub proof fn lemma_load_sign_extension<M: MemIf>(m: &M, w: LoadStoreWidth, addr: u64)
    ensures
        w == LoadStoreWidth::Byte ==> s64(load_result(m, w, addr)) == (if read_le(m, addr, 1)
            < 0x80 {
            read_le(m, addr, 1)
        } else {
            read_le(m, addr, 1) - 0x100
        }),
        w == LoadStoreWidth::Half ==> s64(load_result(m, w, addr)) == (if read_le(m, addr, 2)
            < 0x8000 {
            read_le(m, addr, 2)
        } else {
            read_le(m, addr, 2) - 0x1_0000
        }),
        w == LoadStoreWidth::Word ==> s64(load_result(m, w, addr)) == (if read_le(m, addr, 4)
            < 0x8000_0000 {
            read_le(m, addr, 4)
        } else {
            read_le(m, addr, 4) - 0x1_0000_0000
        }),
{
    reveal_with_fuel(crate::memif::p256, 5);
    lemma_read_le_bound(m, addr, 1);
    lemma_read_le_bound(m, addr, 2);
    lemma_read_le_bound(m, addr, 4);
    crate::rv64alu::lemma_sign_ext_signed_value(read_le(m, addr, 1) as u64);
    crate::rv64alu::lemma_sign_ext_signed_value(read_le(m, addr, 2) as u64);
    crate::rv64alu::lemma_sign_ext_signed_value(read_le(m, addr, 4) as u64);
}

/// The pending call the registers describe.
pub open spec fn parse_syscall_spec(s: ArchState) -> Option<Syscall> {
    match syscall_num_of_spec(reg_val(s, 17)) {
        Some(num) => Some(
            Syscall {
                num,
                args: [
                    reg_val(s, 10),
                    reg_val(s, 11),
                    reg_val(s, 12),
                    reg_val(s, 13),
                    reg_val(s, 14),
                    reg_val(s, 15),
                    reg_val(s, 16),
                ],
            },
        ),
        None => None,
    }
}

} // verus!

