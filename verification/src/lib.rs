//! A user-mode emulator core for a 64-bit little-endian RISC machine:
//! bit-field helpers, exact 64-bit ALU semantics, a three-region byte-granular
//! address space, a variable-length instruction decoder, and an architectural
//! stepper, all carrying verified contracts.

pub mod bitops;
pub mod rv64alu;
pub mod memif;
pub mod progmem;
pub mod rv64defs;
pub mod rv64inst;
pub mod syscalls;
pub mod rv64emu;
pub mod disasm;
pub mod rv64codec;
