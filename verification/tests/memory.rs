use rv64emu::memif::{MemIf, MemError, read8, read16, read32, read64, write8, write16, write32,
    write64, read_bytes, write_bytes};
use rv64emu::progmem::ProgramMemory;

fn small_memory() -> ProgramMemory {
    // a one-page image, a small heap and a small stack high up
    ProgramMemory::new(vec![0u8; 0x1000], 0x1_0000, 0x7000_0000_0000, 0x1_0000)
}

#[test]
fn test_byte_read_write() {
    let mut mem = small_memory();
    assert!(mem.write(0x10, 0xAB));
    assert_eq!(mem.read(0x10), Some(0xAB));
    assert_eq!(mem.read(0xFFF), Some(0));
    assert_eq!(mem.read(0x5000_0000), None);
}

#[test]
fn test_little_endian_round_trip() {
    // a 64-bit store decomposes little-endian and reads back whole
    let mut mem = small_memory();
    assert!(write64(&mut mem, 0x100, 0x0123456789ABCDEF));
    assert_eq!(mem.read(0x100), Some(0xEF));
    assert_eq!(mem.read(0x101), Some(0xCD));
    assert_eq!(mem.read(0x102), Some(0xAB));
    assert_eq!(mem.read(0x103), Some(0x89));
    assert_eq!(mem.read(0x104), Some(0x67));
    assert_eq!(mem.read(0x105), Some(0x45));
    assert_eq!(mem.read(0x106), Some(0x23));
    assert_eq!(mem.read(0x107), Some(0x01));
    assert_eq!(read64(&mem, 0x100), Some(0x0123456789ABCDEF));
}

#[test]
fn test_narrow_accesses() {
    let mut mem = small_memory();
    assert!(write16(&mut mem, 0x20, 0x1234));
    assert_eq!(read16(&mem, 0x20), Some(0x1234));
    assert_eq!(read8(&mem, 0x20), Some(0x34));
    assert!(write32(&mut mem, 0x40, 0xDEADBEEF));
    assert_eq!(read32(&mem, 0x40), Some(0xDEADBEEF));
    assert!(write8(&mut mem, 0x60, 0x1FF));
    // only the low byte of the value is stored
    assert_eq!(read8(&mem, 0x60), Some(0xFF));
    // an unaligned access works byte by byte
    assert!(write32(&mut mem, 0x81, 0xCAFEBABE));
    assert_eq!(read32(&mem, 0x81), Some(0xCAFEBABE));
}

#[test]
fn test_unmapped_multibyte() {
    let mut mem = small_memory();
    // the block straddling the end of the heap region is refused whole
    assert_eq!(read64(&mem, 0xFFC), None);
    assert!(!write64(&mut mem, 0xFFC, 1));
    assert_eq!(read32(&mem, 0xFFC), Some(0));
}

#[test]
fn test_stack_boundaries() {
    // the byte just below the stack base is live; the byte at
    // stack_base - max_stack is the first one outside the region
    let base: u64 = 0x7000_0000_0000;
    let max_stack: u64 = 0x1_0000;
    let mut mem = ProgramMemory::new(vec![0u8; 0x100], 0x1000, base, max_stack);
    assert!(mem.write(base - 1, 0x55));
    assert_eq!(mem.read(base - 1), Some(0x55));
    assert!(!mem.write(base - max_stack, 0x55));
    assert_eq!(mem.read(base - max_stack), None);
    // the base itself is the last live byte of the region
    assert!(mem.write(base, 0x66));
    assert_eq!(mem.read(base), Some(0x66));
    assert_eq!(mem.read(base + 1), None);
}

#[test]
fn test_brk_sequence() {
    // initial break == image length; moving it maps fresh zero bytes
    let image_len: u64 = 0x200;
    let mut mem = ProgramMemory::new(vec![7u8; image_len as usize], 0x1_0000, 0x7000_0000_0000,
        0x1_0000);
    assert_eq!(mem.brk(0), Ok(image_len));
    assert_eq!(mem.read(image_len), None);
    assert_eq!(mem.brk(image_len + 0x1000), Ok(image_len + 0x1000));
    assert_eq!(mem.brk(0), Ok(image_len + 0x1000));
    assert_eq!(mem.read(image_len), Some(0));
    assert_eq!(read8(&mem, image_len), Some(0));
}

#[test]
fn test_brk_errors() {
    let mut mem = ProgramMemory::new(vec![0u8; 0x100], 0x1000, 0x7000_0000_0000, 0x1000);
    assert_eq!(mem.brk(0x10), Err(MemError::HeapUnderflow));
    assert_eq!(mem.brk(0x100 + 0x1001), Err(MemError::HeapOverflow));
    assert_eq!(mem.brk(0), Ok(0x100));
}

#[test]
fn test_heap_start_getter() {
    let mem = ProgramMemory::new(vec![0u8; 0x123], 0x1000, 0x7000_0000_0000, 0x1000);
    assert_eq!(mem.heap_start(), 0x123);
}

#[test]
fn test_block_accessors() {
    let mut mem = small_memory();
    let data = vec![1u8, 2, 3, 4, 5];
    assert!(write_bytes(&mut mem, 0x30, &data));
    assert_eq!(read_bytes(&mem, 0x30, 5), Some(data.clone()));
    assert_eq!(read_bytes(&mem, 0xFFE, 5), None);
    assert!(!write_bytes(&mut mem, 0xFFE, &data));
    assert_eq!(mem.read(0xFFE), Some(0));
}
