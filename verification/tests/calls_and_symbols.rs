use rv64emu::syscalls::{SyscallNum, Syscall, SyscallAction, syscall_num_of, syscall_action,
    exec_brk};
use rv64emu::rv64emu::ArchState;
use rv64emu::progmem::ProgramMemory;
use rv64emu::disasm::{parse_hex_u64, parse_line, parse_disasm};

#[test]
fn test_syscall_numbers() {
    assert_eq!(syscall_num_of(64), Some(SyscallNum::Write));
    assert_eq!(syscall_num_of(80), Some(SyscallNum::Fstat));
    assert_eq!(syscall_num_of(93), Some(SyscallNum::Exit));
    assert_eq!(syscall_num_of(94), Some(SyscallNum::ExitGroup));
    assert_eq!(syscall_num_of(214), Some(SyscallNum::Brk));
    assert_eq!(syscall_num_of(12345), None);
}

#[test]
fn test_parse_syscall_registers() {
    let mut arch = ArchState::new();
    arch.regw(17, 64);
    arch.regw(10, 1);
    arch.regw(11, 0x100);
    arch.regw(12, 5);
    let sc = arch.rv64_parse_syscall().unwrap();
    assert_eq!(sc.num, SyscallNum::Write);
    assert_eq!(sc.args, [1, 0x100, 5, 0, 0, 0, 0]);
    arch.regw(17, 9999);
    assert!(arch.rv64_parse_syscall().is_none());
}

#[test]
fn test_syscall_actions() {
    let sc = Syscall { num: SyscallNum::Write, args: [1, 0x100, 5, 0, 0, 0, 0] };
    assert_eq!(syscall_action(&sc), SyscallAction::HostWrite { fd: 1, buf: 0x100, count: 5 });
    let sc = Syscall { num: SyscallNum::Fstat, args: [1, 0x200, 0, 0, 0, 0, 0] };
    assert_eq!(syscall_action(&sc), SyscallAction::HostFstat { fd: 1, statbuf: 0x200 });
    let sc = Syscall { num: SyscallNum::Brk, args: [0x4000, 0, 0, 0, 0, 0, 0] };
    assert_eq!(syscall_action(&sc), SyscallAction::DoBrk { new_end: 0x4000 });
    let sc = Syscall { num: SyscallNum::Exit, args: [3, 0, 0, 0, 0, 0, 0] };
    assert_eq!(syscall_action(&sc), SyscallAction::Exit { code: 3 });
    let sc = Syscall { num: SyscallNum::Getpid, args: [0; 7] };
    assert_eq!(syscall_action(&sc), SyscallAction::NotSupported);
}

#[test]
fn test_exec_brk_results() {
    let mut mem = ProgramMemory::new(vec![0u8; 0x100], 0x1000, 0x7000_0000_0000, 0x1000);
    // a query, a move, an overflowing request, a fatal one
    assert_eq!(exec_brk(&mut mem, 0), Ok(0x100));
    assert_eq!(exec_brk(&mut mem, 0x800), Ok(0x800));
    assert_eq!(exec_brk(&mut mem, 0x100 + 0x1001), Ok(u64::MAX));
    assert_eq!(exec_brk(&mut mem, 0), Ok(0x800));
    assert!(exec_brk(&mut mem, 0x10).is_err());
}

#[test]
fn test_parse_hex() {
    assert_eq!(parse_hex_u64(b"10078"), Some(0x10078));
    assert_eq!(parse_hex_u64(b"DeadBEEF"), Some(0xDEADBEEF));
    assert_eq!(parse_hex_u64(b"ffffffffffffffff"), Some(u64::MAX));
    assert_eq!(parse_hex_u64(b""), None);
    assert_eq!(parse_hex_u64(b"12g4"), None);
    assert_eq!(parse_hex_u64(b"10000000000000000"), None);
}

#[test]
fn test_parse_line() {
    let line = b"0000000000010078 <main>:".to_vec();
    let (addr, name) = parse_line(&line).unwrap();
    assert_eq!(addr, 0x10078);
    assert_eq!(name, b"main".to_vec());
    assert!(parse_line(&b"plain text".to_vec()).is_none());
    assert!(parse_line(&b"0000000000010078 main".to_vec()).is_none());
    assert!(parse_line(&b"a b <c>:".to_vec()).is_none());
    assert!(parse_line(&b"".to_vec()).is_none());
}

#[test]
fn test_parse_disasm_map() {
    let lines = vec![
        b"0000000000010078 <main>:".to_vec(),
        b"   10078: 1141   addi sp,sp,-16".to_vec(),
        b"00000000000100a2 <exit>:".to_vec(),
        b"".to_vec(),
    ];
    let map = parse_disasm(&lines);
    assert_eq!(map.len(), 2);
    assert_eq!(map.get(&0x10078), Some(&b"main".to_vec()));
    assert_eq!(map.get(&0x100a2), Some(&b"exit".to_vec()));
}
