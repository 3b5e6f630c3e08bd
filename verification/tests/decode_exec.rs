use rv64emu::rv64defs::{RawInst, DecodedInst, BranchType, LoadStoreWidth, CLoadStoreWidth};
use rv64emu::rv64inst::{decode, opt_creg_to_reg};
use rv64emu::rv64emu::{ArchState, ExecResult, ExecError};
use rv64emu::progmem::ProgramMemory;
use rv64emu::memif::MemIf;

fn small_memory() -> ProgramMemory {
    ProgramMemory::new(vec![0u8; 0x1000], 0x1_0000, 0x7000_0000_0000, 0x1_0000)
}

fn raw(bits: u32) -> RawInst {
    RawInst { pc: 0, raw: bits }
}

#[test]
fn test_opt_creg_to_reg() {
    assert_eq!(opt_creg_to_reg(Some(3)), Some(11));
    assert_eq!(opt_creg_to_reg(None), None);
}

#[test]
fn test_decode_addi() {
    // addi x15, x0, 4
    let d = decode(&raw(0x00400793)).unwrap();
    assert_eq!(d, DecodedInst::Addi { rs1: 0, rd: 15, imm: 4 });
}

#[test]
fn test_exec_addi() {
    let mut mem = small_memory();
    let mut arch = ArchState::new();
    let d = decode(&raw(0x00400793)).unwrap();
    assert_eq!(arch.exec_inst(&mut mem, &d), Ok(ExecResult::Continue));
    assert_eq!(arch.regr(15), 4);
    assert_eq!(arch.pc, 4);
}

#[test]
fn test_decode_exec_jal() {
    // jal x0, +8
    let d = decode(&raw(0x0080006F)).unwrap();
    assert_eq!(d, DecodedInst::Jal { rd: 0, imm: 8 });
    let mut mem = small_memory();
    let mut arch = ArchState::new();
    assert_eq!(arch.exec_inst(&mut mem, &d), Ok(ExecResult::Continue));
    assert_eq!(arch.pc, 8);
    assert_eq!(arch.regr(0), 0);
}

#[test]
fn test_decode_exec_addi_negative() {
    // addi x2, x2, -32
    let d = decode(&raw(0xFE010113)).unwrap();
    assert_eq!(d, DecodedInst::Addi { rs1: 2, rd: 2, imm: 0xFFFFFFFFFFFFFFE0 });
    let mut mem = small_memory();
    let mut arch = ArchState::new();
    arch.regw(2, 0x7000_0000_0000);
    assert_eq!(arch.exec_inst(&mut mem, &d), Ok(ExecResult::Continue));
    assert_eq!(arch.regr(2), 0x6FFF_FFFF_FFE0);
}

#[test]
fn test_decode_exec_c_li() {
    // c.li x5, -1
    let d = decode(&raw(0x52FD)).unwrap();
    assert_eq!(d, DecodedInst::CLi { rd: 5, imm: 0xFFFF_FFFF_FFFF_FFFF });
    let mut mem = small_memory();
    let mut arch = ArchState::new();
    assert_eq!(arch.exec_inst(&mut mem, &d), Ok(ExecResult::Continue));
    assert_eq!(arch.regr(5), 0xFFFF_FFFF_FFFF_FFFF);
    assert_eq!(arch.pc, 2);
}

#[test]
fn test_decode_r_type() {
    // add x3, x1, x2 / sub x3, x1, x2
    let d = decode(&raw(0x002081B3)).unwrap();
    assert_eq!(d, DecodedInst::Add { rs1: 1, rs2: 2, rd: 3 });
    let d = decode(&raw(0x402081B3)).unwrap();
    assert_eq!(d, DecodedInst::Sub { rs1: 1, rs2: 2, rd: 3 });
}

#[test]
fn test_decode_failures() {
    // an unknown funct7 in the register-register group
    assert_eq!(decode(&raw(0x02000033)), None);
    // a floating-point load, never recognized here
    assert_eq!(decode(&raw(0x00000007)), None);
}

#[test]
fn test_decode_branch_load_store() {
    // beq x1, x2, +16
    let d = decode(&raw(0x00208863)).unwrap();
    assert_eq!(d, DecodedInst::Branch { func: BranchType::Eq, rs1: 1, rs2: 2, imm: 16 });
    // ld x7, 24(x5)
    let d = decode(&raw(0x0182B383)).unwrap();
    assert_eq!(d, DecodedInst::Load { width: LoadStoreWidth::Double, rs1: 5, rd: 7, imm: 24 });
    // sd x7, 24(x5)
    let d = decode(&raw(0x0072BC23)).unwrap();
    assert_eq!(d, DecodedInst::Store { width: LoadStoreWidth::Double, rs1: 5, rs2: 7, imm: 24 });
}

#[test]
fn test_decode_system() {
    assert_eq!(decode(&raw(0x00000073)), Some(DecodedInst::ECall));
    assert_eq!(decode(&raw(0x00100073)), Some(DecodedInst::EBreak));
}

#[test]
fn test_exec_system() {
    let mut mem = small_memory();
    let mut arch = ArchState::new();
    assert_eq!(arch.exec_inst(&mut mem, &DecodedInst::ECall), Ok(ExecResult::Trap));
    assert_eq!(arch.pc, 4);
    assert_eq!(arch.exec_inst(&mut mem, &DecodedInst::EBreak), Ok(ExecResult::Halt));
    // a breakpoint does not advance the counter
    assert_eq!(arch.pc, 4);
}

#[test]
fn test_exec_load_store() {
    let mut mem = small_memory();
    let mut arch = ArchState::new();
    arch.regw(5, 0x100);
    arch.regw(7, 0x0123456789ABCDEF);
    // sd x7, 24(x5); ld x6, 24(x5)
    let st = DecodedInst::Store { width: LoadStoreWidth::Double, rs1: 5, rs2: 7, imm: 24 };
    assert_eq!(arch.exec_inst(&mut mem, &st), Ok(ExecResult::Continue));
    let ld = DecodedInst::Load { width: LoadStoreWidth::Double, rs1: 5, rd: 6, imm: 24 };
    assert_eq!(arch.exec_inst(&mut mem, &ld), Ok(ExecResult::Continue));
    assert_eq!(arch.regr(6), 0x0123456789ABCDEF);
    assert_eq!(arch.pc, 8);
}

#[test]
fn test_exec_load_sign_extension() {
    let mut mem = small_memory();
    let mut arch = ArchState::new();
    assert!(mem.write(0x80, 0x80));
    let lb = DecodedInst::Load { width: LoadStoreWidth::Byte, rs1: 0, rd: 9, imm: 0x80 };
    assert_eq!(arch.exec_inst(&mut mem, &lb), Ok(ExecResult::Continue));
    assert_eq!(arch.regr(9), 0xFFFF_FFFF_FFFF_FF80);
    let lbu = DecodedInst::Load { width: LoadStoreWidth::ByteU, rs1: 0, rd: 9, imm: 0x80 };
    assert_eq!(arch.exec_inst(&mut mem, &lbu), Ok(ExecResult::Continue));
    assert_eq!(arch.regr(9), 0x80);
}

#[test]
fn test_exec_jalr_same_register() {
    // jalr x1, x1, 0x20: the target is read before the link is written
    let mut mem = small_memory();
    let mut arch = ArchState::new();
    arch.pc = 0x100;
    arch.regw(1, 0x200);
    let d = DecodedInst::Jalr { rs1: 1, rd: 1, imm: 0x20 };
    assert_eq!(arch.exec_inst(&mut mem, &d), Ok(ExecResult::Continue));
    assert_eq!(arch.pc, 0x220);
    assert_eq!(arch.regr(1), 0x104);
}

#[test]
fn test_exec_faults() {
    let mut mem = small_memory();
    let mut arch = ArchState::new();
    let ld = DecodedInst::Load { width: LoadStoreWidth::Word, rs1: 0, rd: 9, imm: 0x7FFF };
    assert_eq!(arch.exec_inst(&mut mem, &ld).err(), Some(ExecError::Unmapped));
    let st = DecodedInst::Store { width: LoadStoreWidth::ByteU, rs1: 0, rs2: 0, imm: 0 };
    assert_eq!(arch.exec_inst(&mut mem, &st).err(), Some(ExecError::Unimplemented));
    let cl = DecodedInst::CLoad { width: CLoadStoreWidth::Cfd, rs1: 8, rd: 8, imm: 0 };
    assert_eq!(arch.exec_inst(&mut mem, &cl).err(), Some(ExecError::Unimplemented));
    // a fault leaves the state alone
    assert_eq!(arch.pc, 0);
}

#[test]
fn test_fetch_widths() {
    let mut image = vec![0u8; 0x100];
    // at 0: addi x15, x0, 4 (full width); at 4: c.li x5, -1 (compressed)
    image[0..4].copy_from_slice(&0x00400793u32.to_le_bytes());
    image[4..6].copy_from_slice(&0x52FDu16.to_le_bytes());
    let mem = ProgramMemory::new(image, 0x1000, 0x7000_0000_0000, 0x1000);
    let mut arch = ArchState::new();
    let r = arch.fetch_inst(&mem).unwrap();
    assert_eq!(r.raw, 0x00400793);
    assert_eq!(r.pc, 0);
    arch.pc = 4;
    let r = arch.fetch_inst(&mem).unwrap();
    assert_eq!(r.raw, 0x52FD);
    // an unmapped counter is a fetch fault
    arch.pc = 0x5000_0000;
    assert!(arch.fetch_inst(&mem).is_none());
}

#[test]
fn test_exec_compressed_arith() {
    let mut mem = small_memory();
    let mut arch = ArchState::new();
    arch.regw(8, 10);
    arch.regw(9, 3);
    let d = DecodedInst::CSub { rsrd: 8, rs2: 9 };
    assert_eq!(arch.exec_inst(&mut mem, &d), Ok(ExecResult::Continue));
    assert_eq!(arch.regr(8), 7);
    assert_eq!(arch.pc, 2);
    // c.addi16sp adjusts the stack pointer in place
    arch.regw(2, 0x1000);
    let d = DecodedInst::CAddi16sp { imm: (-32i64) as u64 };
    assert_eq!(arch.exec_inst(&mut mem, &d), Ok(ExecResult::Continue));
    assert_eq!(arch.regr(2), 0xFE0);
}

#[test]
fn test_decode_compressed_quadrants() {
    // c.addi4spn x8, sp, 16: 0x0800
    let d = decode(&raw(0x0800)).unwrap();
    assert_eq!(d, DecodedInst::CAddi4spn { rd: 8, imm: 16 });
    // c.mv x10, x11: funct4 1000, rd 01010, rs2 01011, op 10
    let d = decode(&raw(0x852E)).unwrap();
    assert_eq!(d, DecodedInst::CMv { rsrd: 10, rs2: 11 });
    // c.jr x1: 0x8082
    let d = decode(&raw(0x8082)).unwrap();
    assert_eq!(d, DecodedInst::CJr { rs1: 1 });
    // c.ebreak: 0x9002
    let d = decode(&raw(0x9002)).unwrap();
    assert_eq!(d, DecodedInst::CEBreak);
    // c.add x10, x11: 0x952E
    let d = decode(&raw(0x952E)).unwrap();
    assert_eq!(d, DecodedInst::CAdd { rsrd: 10, rs2: 11 });
}

#[test]
fn test_decode_compressed_mem() {
    // c.lw x10, 8(x11)
    let d = decode(&raw(0x4588)).unwrap();
    assert_eq!(d, DecodedInst::CLoad { width: CLoadStoreWidth::Cw, rs1: 11, rd: 10, imm: 8 });
    // c.sd x10, 16(x11)
    let d = decode(&raw(0xE988)).unwrap();
    assert_eq!(d, DecodedInst::CStore { width: CLoadStoreWidth::Cd, rs1: 11, rs2: 10, imm: 16 });
    // c.lwsp x5, 12(sp)
    let d = decode(&raw(0x42B2)).unwrap();
    assert_eq!(d, DecodedInst::CLoadStack { width: CLoadStoreWidth::Cw, rd: 5, imm: 12 });
    // c.sdsp x8, 24(sp)
    let d = decode(&raw(0xEC22)).unwrap();
    assert_eq!(d, DecodedInst::CStoreStack { width: CLoadStoreWidth::Cd, rs2: 8, imm: 24 });
}

#[test]
fn test_decode_compressed_jumps() {
    // c.j +16
    let d = decode(&raw(0xA801)).unwrap();
    assert_eq!(d, DecodedInst::CJ { imm: 16 });
    // c.beqz x8, +8
    let d = decode(&raw(0xC401)).unwrap();
    assert_eq!(d, DecodedInst::CBeqz { rs1: 8, imm: 8 });
    // c.addi16sp -32: imm bits [9]=1,[8:7]=1? -32 as 10-bit: 0x3E0
    // placements: bit12 = imm[9] = 1, bit6 = imm[4] = 0, bit5 = imm[6] = 1,
    // bits4:3 = imm[8:7] = 11, bit2 = imm[5] = 1
    let d = decode(&raw(0x713D)).unwrap();
    assert_eq!(d, DecodedInst::CAddi16sp { imm: (-32i64) as u64 });
}

#[test]
fn test_mini_program() {
    // addi x15, x0, 4; sw x15, 0x100(x0); lw x14, 0x100(x0); ebreak
    let mut image = vec![0u8; 0x200];
    image[0..4].copy_from_slice(&0x00400793u32.to_le_bytes());
    image[4..8].copy_from_slice(&0x10F02023u32.to_le_bytes());
    image[8..12].copy_from_slice(&0x10002703u32.to_le_bytes());
    image[12..16].copy_from_slice(&0x00100073u32.to_le_bytes());
    let mut mem = ProgramMemory::new(image, 0x1000, 0x7000_0000_0000, 0x1000);
    let mut arch = ArchState::new();
    let mut steps = 0;
    loop {
        let r = arch.fetch_inst(&mem).unwrap();
        let d = decode(&r).unwrap();
        match arch.exec_inst(&mut mem, &d).unwrap() {
            ExecResult::Continue => {},
            ExecResult::Halt => break,
            ExecResult::Trap => panic!("unexpected trap"),
        }
        steps += 1;
        assert!(steps < 10);
    }
    assert_eq!(arch.regr(15), 4);
    assert_eq!(arch.regr(14), 4);
    assert_eq!(arch.pc, 12);
    assert_eq!(mem.read(0x100), Some(4));
}

#[test]
fn test_exec_branch_kinds() {
    let mut mem = small_memory();
    let mut arch = ArchState::new();
    arch.regw(1, (-5i64) as u64);
    arch.regw(2, 3);
    // signed: -5 < 3 takes the branch
    let d = DecodedInst::Branch { func: BranchType::Lt, rs1: 1, rs2: 2, imm: 0x40 };
    assert_eq!(arch.exec_inst(&mut mem, &d), Ok(ExecResult::Continue));
    assert_eq!(arch.pc, 0x40);
    // unsigned: the same bits compare the other way
    let d = DecodedInst::Branch { func: BranchType::Ltu, rs1: 1, rs2: 2, imm: 0x40 };
    assert_eq!(arch.exec_inst(&mut mem, &d), Ok(ExecResult::Continue));
    assert_eq!(arch.pc, 0x44);
}
