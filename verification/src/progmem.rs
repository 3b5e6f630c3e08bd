//! The three-region address space: the loaded image at address zero, a heap
//! bounded by a movable program break, and a stack growing downward from a
//! high base. Heap and stack storage grows on demand and reads as zero until
//! written.

use vstd::prelude::*;
use crate::memif::{MemIf, MemError};

verus! {

/// Default heap ceiling: four binary gigabytes.
pub const MAX_HEAP: u64 = 0x1_0000_0000;

/// Default stack ceiling: 256 binary megabytes.
pub const MAX_STACK: u64 = 0x1000_0000;

/// Default address just above the top of the stack.
pub const STACK_BASE: u64 = 0x7000_0000_0000;

/// Byte store for the three regions. A byte of the heap or stack that lies
/// beyond the backing vector has never been written and reads as zero.
pub struct ProgramMemory {
    image: Vec<u8>,
    heap: Vec<u8>,
    heap_start: u64,
    heap_end: u64,
    heap_max: u64,
    stack: Vec<u8>,
    stack_start: u64,
    stack_max: u64,
}

impl ProgramMemory {
    /// The byte a heap offset designates, zero beyond the backing.
    pub closed spec fn heap_byte(&self, off: int) -> u8 {
        if off < self.heap@.len() {
            self.heap@[off]
        } else {
            0
        }
    }

    /// The byte a stack offset designates, zero beyond the backing.
    pub closed spec fn stack_byte(&self, off: int) -> u8 {
        if off < self.stack@.len() {
            self.stack@[off]
        } else {
            0
        }
    }

    /// Build an address space over `image`, with the heap break at the image
    /// end and the given region ceilings.
    pub fn new(image: Vec<u8>, heap_max: u64, stack_start: u64, stack_max: u64) -> (r:
        ProgramMemory)
        requires
            heap_max <= usize::MAX,
            stack_max <= usize::MAX,
            stack_max <= stack_start,
            image@.len() + heap_max <= stack_start - stack_max,
        ensures
            r.inv(),
            r.heap_start_val() == image@.len(),
            r.heap_end_val() == image@.len(),
            r.heap_max_val() == heap_max,
            r.stack_base_val() == stack_start,
            r.stack_max_val() == stack_max,
            forall|a: u64| a < image@.len() ==> #[trigger] r.byte_at(a) == image@[a as int],
            forall|a: u64| a >= image@.len() ==> #[trigger] r.byte_at(a) == 0,
    {
        let image_len = image.len() as u64;
        ProgramMemory {
            image,
            heap: Vec::new(),
            heap_start: image_len,
            heap_end: image_len,
            heap_max,
            stack: Vec::new(),
            stack_start,
            stack_max,
        }
    }
}

impl MemIf for ProgramMemory {
    closed spec fn inv(&self) -> bool {
        &&& self.image@.len() == self.heap_start
        &&& self.heap_start <= self.heap_end
        &&& self.heap_end - self.heap_start <= self.heap_max
        &&& self.heap@.len() <= self.heap_max
        &&& self.stack@.len() <= self.stack_max
        &&& self.stack_max <= self.stack_start
        &&& self.heap_max <= usize::MAX
        &&& self.stack_max <= usize::MAX
        &&& self.heap_start + self.heap_max <= self.stack_start - self.stack_max
    }

    closed spec fn mapped(&self, addr: u64) -> bool {
        addr < self.heap_end || (self.stack_start - self.stack_max < addr && addr
            <= self.stack_start)
    }

    closed spec fn byte_at(&self, addr: u64) -> u8 {
        if addr < self.heap_start {
            self.image@[addr as int]
        } else if addr < self.heap_start + self.heap_max {
            self.heap_byte(addr - self.heap_start)
        } else if self.stack_start - self.stack_max < addr && addr <= self.stack_start {
            self.stack_byte(self.stack_start - addr)
        } else {
            0
        }
    }

    closed spec fn heap_start_val(&self) -> u64 {
        self.heap_start
    }

    closed spec fn heap_end_val(&self) -> u64 {
        self.heap_end
    }

    closed spec fn heap_max_val(&self) -> u64 {
        self.heap_max
    }

    closed spec fn stack_base_val(&self) -> u64 {
        self.stack_start
    }

    closed spec fn stack_max_val(&self) -> u64 {
        self.stack_max
    }

    proof fn lemma_mapped_shape(&self) {
    }

    fn read(&self, addr: u64) -> (r: Option<u8>) {
        let ilen = self.image.len();
        if addr < ilen as u64 {
            Some(self.image[addr as usize])
        } else if addr < self.heap_end {
            let off = addr - self.heap_start;
            if off < self.heap.len() as u64 {
                Some(self.heap[off as usize])
            } else {
                Some(0)
            }
        } else if self.stack_start - self.stack_max < addr && addr <= self.stack_start {
            let off = self.stack_start - addr;
            if off < self.stack.len() as u64 {
                Some(self.stack[off as usize])
            } else {
                Some(0)
            }
        } else {
            None
        }
    }

    fn write(&mut self, addr: u64, value: u8) -> (ok: bool) {
        let ilen = self.image.len();
        if addr < ilen as u64 {
            self.image[addr as usize] = value;
            true
        } else if addr < self.heap_end {
            let off = addr - self.heap_start;
            if off < self.heap.len() as u64 {
                self.heap[off as usize] = value;
            } else {
                self.heap.resize((off + 1) as usize, 0);
                self.heap[off as usize] = value;
            }
            true
        } else if self.stack_start - self.stack_max < addr && addr <= self.stack_start {
            let off = self.stack_start - addr;
            if off < self.stack.len() as u64 {
                self.stack[off as usize] = value;
            } else {
                self.stack.resize((off + 1) as usize, 0);
                self.stack[off as usize] = value;
            }
            true
        } else {
            false
        }
    }

    fn heap_start(&self) -> (r: u64) {
        self.heap_start
    }

    fn brk(&mut self, new_heap_end: u64) -> (r: Result<u64, MemError>) {
        if new_heap_end == 0 {
            Ok(self.heap_end)
        } else if new_heap_end < self.heap_start {
            Err(MemError::HeapUnderflow)
        } else if new_heap_end - self.heap_start > self.heap_max {
            Err(MemError::HeapOverflow)
        } else {
            self.heap_end = new_heap_end;
            Ok(new_heap_end)
        }
    }
}

} // verus!
