use rv64emu::rv64alu;

#[test]
fn test_add() {
    assert_eq!(rv64alu::add(1, 1), 2);
    assert_eq!(rv64alu::add(0xFFFFFFFFFFFFFFFF, 1), 0);
}

#[test]
fn test_sub() {
    assert_eq!(rv64alu::sub(1, 0xFFFFFFFFFFFFFFFF), 2);
    assert_eq!(rv64alu::sub(0xFFFFFFFFFFFFFFFF, 1), 0xFFFFFFFFFFFFFFFE);
}

#[test]
fn test_addw() {
    assert_eq!(rv64alu::addw(1, 1), 2);
    assert_eq!(rv64alu::addw(0x00000000FFFFFFFF, 1), 0);
}

#[test]
fn test_subw() {
    assert_eq!(rv64alu::subw(1, 0x00000000FFFFFFFF), 2);
    // the 32-bit result has its top bit set, so it comes back sign-extended
    assert_eq!(rv64alu::subw(0x00000000FFFFFFFF, 1), 0xFFFFFFFFFFFFFFFE);
}

#[test]
fn test_sltu() {
    let f: u64 = 0xFFFFFFFFFFFFFFFF;
    println!("{}", f as i64);
    assert_eq!(rv64alu::sltu(0xFFFFFFFFFFFFFFFF, 0), 0);
    assert_eq!(rv64alu::sltu(0, 0xFFFFFFFFFFFFFFFF), 1);
}

#[test]
fn test_slt() {
    assert_eq!(rv64alu::slt(0xFFFFFFFFFFFFFFFF, 0), 1);
    assert_eq!(rv64alu::slt(0, 0xFFFFFFFFFFFFFFFF), 0);
}

#[test]
fn test_rem() {
    let x1 = (1 as u64) % (3 as u64);
    let x2 = (3 as u64) % (3 as u64);
    let x3 = (4 as u64) % (3 as u64);
    let x4 = rv64alu::rem(u64::MAX, 3 as u64);

    println!("{}", x1);
    println!("{}", x2);
    println!("{}", x3);
    println!("{:016x}", x4);
}

#[test]
fn test_logic_ops() {
    assert_eq!(rv64alu::and(0xFF00, 0x0FF0), 0x0F00);
    assert_eq!(rv64alu::or(0xFF00, 0x0FF0), 0xFFF0);
    assert_eq!(rv64alu::xor(0xFF00, 0x0FF0), 0xF0F0);
    assert_eq!(rv64alu::not(0), 0xFFFF_FFFF_FFFF_FFFF);
}

#[test]
fn test_shifts() {
    assert_eq!(rv64alu::sll(1, 63), 0x8000_0000_0000_0000);
    // the shift amount keeps only its low six bits
    assert_eq!(rv64alu::sll(1, 64), 1);
    assert_eq!(rv64alu::srl(0x8000_0000_0000_0000, 63), 1);
    assert_eq!(rv64alu::sra(0x8000_0000_0000_0000, 63), 0xFFFF_FFFF_FFFF_FFFF);
    assert_eq!(rv64alu::sra(0x4000_0000_0000_0000, 62), 1);
    assert_eq!(rv64alu::sra(0x8000_0000_0000_0000, 0), 0x8000_0000_0000_0000);
}

#[test]
fn test_word_shifts() {
    assert_eq!(rv64alu::sllw(1, 31), 0xFFFF_FFFF_8000_0000);
    assert_eq!(rv64alu::srlw(0xFFFF_FFFF_8000_0000, 31), 1);
    assert_eq!(rv64alu::sraw(0x8000_0000, 0), 0xFFFF_FFFF_8000_0000);
    assert_eq!(rv64alu::sraw(0x8000_0000, 4), 0xFFFF_FFFF_F800_0000);
    // only the low 32 bits of the operand take part
    assert_eq!(rv64alu::srlw(0x1_0000_0000, 4), 0);
}

#[test]
fn test_div_rules() {
    // division by zero yields all ones; remainder by zero the dividend
    assert_eq!(rv64alu::divu(5, 0), u64::MAX);
    assert_eq!(rv64alu::remu(5, 0), 5);
    assert_eq!(rv64alu::div(5, 0), u64::MAX);
    assert_eq!(rv64alu::rem(5, 0), 5);
    // ordinary signed division truncates toward zero
    let minus7 = (-7i64) as u64;
    let minus1 = (-1i64) as u64;
    let minus3 = (-3i64) as u64;
    assert_eq!(rv64alu::div(minus7, 2), (-3i64) as u64);
    assert_eq!(rv64alu::rem(minus7, 2), minus1);
    assert_eq!(rv64alu::div(7, minus3), (-2i64) as u64);
    assert_eq!(rv64alu::rem(7, minus3), 1);
    // the overflowing MIN / -1 yields the dividend and remainder zero
    let min = 0x8000_0000_0000_0000u64;
    assert_eq!(rv64alu::div(min, minus1), min);
    assert_eq!(rv64alu::rem(min, minus1), 0);
    assert_eq!(rv64alu::divu(100, 7), 14);
    assert_eq!(rv64alu::remu(100, 7), 2);
}

#[test]
fn test_div_word_rules() {
    let minus1 = 0xFFFF_FFFF_FFFF_FFFFu64;
    // low 32 bits only, result sign-extended
    assert_eq!(rv64alu::divw(minus1, 2), 0); // -1 / 2 truncates toward zero
    assert_eq!(rv64alu::divw(0xFFFF_FFF9, 2), 0xFFFF_FFFF_FFFF_FFFD); // -7 / 2 == -3
    assert_eq!(rv64alu::remw(0xFFFF_FFF9, 2), u64::MAX); // -7 % 2 == -1
    assert_eq!(rv64alu::divw(5, 0), u64::MAX);
    assert_eq!(rv64alu::remw(5, 0), 5);
    assert_eq!(rv64alu::divw(0x8000_0000, 0xFFFF_FFFF), 0xFFFF_FFFF_8000_0000);
    assert_eq!(rv64alu::remw(0x8000_0000, 0xFFFF_FFFF), 0);
    assert_eq!(rv64alu::divuw(100, 7), 14);
    assert_eq!(rv64alu::remuw(100, 7), 2);
    assert_eq!(rv64alu::divuw(5, 0), u64::MAX);
    assert_eq!(rv64alu::remuw(0x8000_0005, 0), 0xFFFF_FFFF_8000_0005);
}
