//! The memory interface the executor works against: single-byte reads and
//! writes behind a trait, and little-endian 16/32/64-bit accessors composed
//! from byte accesses at consecutive (wrapping) addresses.

use vstd::prelude::*;
use crate::rv64alu::wrap64;

verus! {

/// Why a program-break request could not be carried out.
#[derive(Clone, Copy, Debug, PartialEq, Eq, Structural)]
pub enum MemError {
    /// A break below the start of the heap was requested.
    HeapUnderflow,
    /// A break beyond the heap ceiling was requested.
    HeapOverflow,
}

/// Byte-granular memory with a movable program break.
///
/// `mapped` and `byte_at` are the model: which addresses are live and what a
/// read at each of them returns. `byte_at` is total; its value at an unmapped
/// address is what a read there would return were the address to become
/// mapped later with no write in between.
pub trait MemIf: Sized {
    /// The implementor's internal consistency condition.
    spec fn inv(&self) -> bool;

    /// Whether a read or write at `addr` succeeds.
    spec fn mapped(&self, addr: u64) -> bool;

    /// The byte the address designates.
    spec fn byte_at(&self, addr: u64) -> u8;

    /// First address of the heap region.
    spec fn heap_start_val(&self) -> u64;

    /// First address past the live heap: the current program break.
    spec fn heap_end_val(&self) -> u64;

    /// Largest admissible heap size.
    spec fn heap_max_val(&self) -> u64;

    /// The address just above the top of the stack.
    spec fn stack_base_val(&self) -> u64;

    /// Largest admissible stack size.
    spec fn stack_max_val(&self) -> u64;

    /// What the mapped addresses are: everything below the program break,
    /// and the stack bytes `(stack base - stack max, stack base]`.
    proof fn lemma_mapped_shape(&self)
        requires
            self.inv(),
        ensures
            forall|a: u64|
                #[trigger] self.mapped(a) <==> (a < self.heap_end_val() || (
                self.stack_base_val() - self.stack_max_val() < a && a
                    <= self.stack_base_val()));

    /// Read one byte; `None` outside the mapped regions.
    fn read(&self, addr: u64) -> (r: Option<u8>)
        requires
            self.inv(),
        ensures
            self.mapped(addr) ==> r == Some(self.byte_at(addr)),
            !self.mapped(addr) ==> r is None;

    /// Write one byte; `false` (and no change) outside the mapped regions.
    fn write(&mut self, addr: u64, value: u8) -> (ok: bool)
        requires
            old(self).inv(),
        ensures
            final(self).inv(),
            ok == old(self).mapped(addr),
            forall|a: u64| #[trigger] final(self).mapped(a) == old(self).mapped(a),
            final(self).heap_start_val() == old(self).heap_start_val(),
            final(self).heap_end_val() == old(self).heap_end_val(),
            final(self).heap_max_val() == old(self).heap_max_val(),
            final(self).stack_base_val() == old(self).stack_base_val(),
            final(self).stack_max_val() == old(self).stack_max_val(),
            ok ==> final(self).byte_at(addr) == value,
            forall|a: u64|
                a != addr ==> #[trigger] final(self).byte_at(a) == old(self).byte_at(a),
            !ok ==> *final(self) == *old(self);

    /// First address of the heap region.
    fn heap_start(&self) -> (r: u64)
        requires
            self.inv(),
        ensures
            r == self.heap_start_val();

    /// The break moved to `new_heap_end`; nothing else moved and no byte
    /// changed.
    open spec fn brk_moved(pre: Self, post: Self, new_heap_end: u64) -> bool {
        &&& post.heap_end_val() == new_heap_end
        &&& post.heap_start_val() == pre.heap_start_val()
        &&& post.heap_max_val() == pre.heap_max_val()
        &&& post.stack_base_val() == pre.stack_base_val()
        &&& post.stack_max_val() == pre.stack_max_val()
        &&& forall|a: u64| #[trigger] post.byte_at(a) == pre.byte_at(a)
    }

    /// Move the program break. Zero queries the current break; a request
    /// below the heap start or past the heap ceiling is refused and changes
    /// nothing; otherwise the break moves and no byte changes.
    fn brk(&mut self, new_heap_end: u64) -> (r: Result<u64, MemError>)
        requires
            old(self).inv(),
        ensures
            final(self).inv(),
            new_heap_end == 0 ==> *final(self) == *old(self) && r == Ok::<u64, MemError>(
                old(self).heap_end_val(),
            ),
            new_heap_end != 0 && new_heap_end < old(self).heap_start_val() ==> *final(self)
                == *old(self) && r == Err::<u64, MemError>(MemError::HeapUnderflow),
            new_heap_end != 0 && new_heap_end >= old(self).heap_start_val() && new_heap_end
                - old(self).heap_start_val() > old(self).heap_max_val() ==> *final(self) == *old(
                self,
            ) && r == Err::<u64, MemError>(MemError::HeapOverflow),
            new_heap_end != 0 && new_heap_end >= old(self).heap_start_val() && new_heap_end
                - old(self).heap_start_val() <= old(self).heap_max_val() ==> r == Ok::<
                u64,
                MemError,
            >(new_heap_end) && Self::brk_moved(*old(self), *final(self), new_heap_end);
}

/// The address `k` bytes past `a`, wrapping at the top of the address space.
pub open spec fn addr_off(a: u64, k: u64) -> u64 {
    wrap64(a + k)
}

/// All of the `n` consecutive (wrapping) addresses from `a` are mapped.
pub open spec fn mapped_range<M: MemIf>(m: &M, a: u64, n: nat) -> bool
    decreases n,
{
    n == 0 || (m.mapped(a) && mapped_range(m, addr_off(a, 1), (n - 1) as nat))
}

/// 256 raised to `n`: the number of values `n` bytes can hold.
pub open spec fn p256(n: nat) -> int
    decreases n,
{
    if n == 0 {
        1
    } else {
        256 * p256((n - 1) as nat)
    }
}

/// The little-endian value of the `n` bytes at `a`: the byte at `a` is least
/// significant.
pub open spec fn read_le<M: MemIf>(m: &M, a: u64, n: nat) -> int
    decreases n,
{
    if n == 0 {
        0
    } else {
        m.byte_at(a) + 256 * read_le(m, addr_off(a, 1), (n - 1) as nat)
    }
}

/// Byte `k` of the little-endian decomposition of `x`.
pub open spec fn le_byte(x: int, k: nat) -> u8 {
    ((x / p256(k)) % 256) as u8
}

pub proof fn lemma_read_le_bound<M: MemIf>(m: &M, a: u64, n: nat)
    ensures
        0 <= read_le(m, a, n) < p256(n),
    decreases n,
{
    if n == 0 {
    } else {
        lemma_read_le_bound(m, addr_off(a, 1), (n - 1) as nat);
    }
}

/// Stepping one byte past `a + k` lands on `a + (k + 1)`.
pub proof fn lemma_addr_off_step(a: u64, k: u64)
    requires
        k < u64::MAX,
    ensures
        addr_off(addr_off(a, k), 1) == addr_off(a, (k + 1) as u64),
{
    let m = crate::bitops::two64();
    let x = a + k;
    vstd::arithmetic::div_mod::lemma_mod_bound(x, m);
    vstd::arithmetic::div_mod::lemma_small_mod(1nat, m as nat);
    vstd::arithmetic::div_mod::lemma_add_mod_noop(x, 1, m);
}

/// `mapped_range` over the widths the machine uses, written out byte by
/// byte.
pub proof fn lemma_mapped_range_unfold<M: MemIf>(m: &M, a: u64)
    ensures
        mapped_range(m, a, 1) == m.mapped(a),
        mapped_range(m, a, 2) == (m.mapped(a) && m.mapped(addr_off(a, 1))),
        mapped_range(m, a, 4) == (m.mapped(a) && m.mapped(addr_off(a, 1)) && m.mapped(
            addr_off(a, 2),
        ) && m.mapped(addr_off(a, 3))),
        mapped_range(m, a, 8) == (m.mapped(a) && m.mapped(addr_off(a, 1)) && m.mapped(
            addr_off(a, 2),
        ) && m.mapped(addr_off(a, 3)) && m.mapped(addr_off(a, 4)) && m.mapped(addr_off(a, 5))
            && m.mapped(addr_off(a, 6)) && m.mapped(addr_off(a, 7))),
{
    reveal_with_fuel(mapped_range, 10);
    lemma_addr_off_step(a, 1);
    lemma_addr_off_step(a, 2);
    lemma_addr_off_step(a, 3);
    lemma_addr_off_step(a, 4);
    lemma_addr_off_step(a, 5);
    lemma_addr_off_step(a, 6);
    lemma_addr_off_step(a, 7);
}

/// The first eight offsets from a base address land on distinct addresses,
/// and offset zero is the base itself.
pub proof fn lemma_addr_off_distinct(a: u64)
    ensures
        addr_off(a, 0) == a,
        forall|j: u64, k: u64|
            j < k < 8 ==> #[trigger] addr_off(a, j) != #[trigger] addr_off(a, k),
{
    let m = crate::bitops::two64();
    vstd::arithmetic::div_mod::lemma_small_mod(a as nat, m as nat);
    assert forall|j: u64, k: u64| j < k < 8 implies #[trigger] addr_off(a, j)
        != #[trigger] addr_off(a, k) by {
        let s = (a + j) % m;
        let d = k - j;
        vstd::arithmetic::div_mod::lemma_mod_bound(a + j, m);
        vstd::arithmetic::div_mod::lemma_mod_bound(a + k, m);
        vstd::arithmetic::div_mod::lemma_add_mod_noop(a + j, d, m);
        vstd::arithmetic::div_mod::lemma_small_mod(d as nat, m as nat);
        if s + d < m {
            vstd::arithmetic::div_mod::lemma_small_mod((s + d) as nat, m as nat);
        } else {
            vstd::arithmetic::div_mod::lemma_mod_sub_multiples_vanish(s + d, m);
            vstd::arithmetic::div_mod::lemma_small_mod((s + d - m) as nat, m as nat);
        }
    }
}

/// The bytes `[addr, addr + 2)` hold the low half of `val` little-endian and
/// every other byte kept its old value.
pub open spec fn wrote_le_2<M: MemIf>(pre: M, post: M, addr: u64, val: u64) -> bool {
    &&& post.byte_at(addr) == le_byte(val as int, 0)
    &&& post.byte_at(addr_off(addr, 1)) == le_byte(val as int, 1)
    &&& forall|a: u64|
        a != addr && a != addr_off(addr, 1) ==> #[trigger] post.byte_at(a) == pre.byte_at(a)
}

/// The bytes `[addr, addr + 4)` hold the low word of `val` little-endian and
/// every other byte kept its old value.
pub open spec fn wrote_le_4<M: MemIf>(pre: M, post: M, addr: u64, val: u64) -> bool {
    &&& post.byte_at(addr) == le_byte(val as int, 0)
    &&& post.byte_at(addr_off(addr, 1)) == le_byte(val as int, 1)
    &&& post.byte_at(addr_off(addr, 2)) == le_byte(val as int, 2)
    &&& post.byte_at(addr_off(addr, 3)) == le_byte(val as int, 3)
    &&& forall|a: u64|
        a != addr && a != addr_off(addr, 1) && a != addr_off(addr, 2) && a != addr_off(addr, 3)
            ==> #[trigger] post.byte_at(a) == pre.byte_at(a)
}

/// The bytes `[addr, addr + 8)` hold `val` little-endian and every other
/// byte kept its old value.
pub open spec fn wrote_le_8<M: MemIf>(pre: M, post: M, addr: u64, val: u64) -> bool {
    &&& post.byte_at(addr) == le_byte(val as int, 0)
    &&& post.byte_at(addr_off(addr, 1)) == le_byte(val as int, 1)
    &&& post.byte_at(addr_off(addr, 2)) == le_byte(val as int, 2)
    &&& post.byte_at(addr_off(addr, 3)) == le_byte(val as int, 3)
    &&& post.byte_at(addr_off(addr, 4)) == le_byte(val as int, 4)
    &&& post.byte_at(addr_off(addr, 5)) == le_byte(val as int, 5)
    &&& post.byte_at(addr_off(addr, 6)) == le_byte(val as int, 6)
    &&& post.byte_at(addr_off(addr, 7)) == le_byte(val as int, 7)
    &&& forall|a: u64|
        a != addr && a != addr_off(addr, 1) && a != addr_off(addr, 2) && a != addr_off(addr, 3)
            && a != addr_off(addr, 4) && a != addr_off(addr, 5) && a != addr_off(addr, 6) && a
            != addr_off(addr, 7) ==> #[trigger] post.byte_at(a) == pre.byte_at(a)
}

/// The mapping and the region bounds did not move.
pub open spec fn same_regions<M: MemIf>(pre: M, post: M) -> bool {
    &&& forall|a: u64| #[trigger] post.mapped(a) == pre.mapped(a)
    &&& post.heap_start_val() == pre.heap_start_val()
    &&& post.heap_end_val() == pre.heap_end_val()
    &&& post.heap_max_val() == pre.heap_max_val()
    &&& post.stack_base_val() == pre.stack_base_val()
    &&& post.stack_max_val() == pre.stack_max_val()
}

/// Write the low byte of `val`; `false` (and no change) if unmapped.
pub fn write8<M: MemIf>(mem: &mut M, addr: u64, val: u64) -> (ok: bool)
    requires
        old(mem).inv(),
    ensures
        final(mem).inv(),
        ok == old(mem).mapped(addr),
        same_regions(*old(mem), *final(mem)),
        ok ==> final(mem).byte_at(addr) == le_byte(val as int, 0),
        forall|a: u64| a != addr ==> #[trigger] final(mem).byte_at(a) == old(mem).byte_at(a),
        !ok ==> *final(mem) == *old(mem),
{
    proof {
        reveal_with_fuel(p256, 2);
    }
    mem.write(addr, (val % 0x100) as u8)
}

/// Write the low two bytes of `val` little-endian; all or nothing.
pub fn write16<M: MemIf>(mem: &mut M, addr: u64, val: u64) -> (ok: bool)
    requires
        old(mem).inv(),
    ensures
        final(mem).inv(),
        ok == (old(mem).mapped(addr) && old(mem).mapped(addr_off(addr, 1))),
        same_regions(*old(mem), *final(mem)),
        ok ==> wrote_le_2(*old(mem), *final(mem), addr, val),
        !ok ==> *final(mem) == *old(mem),
{
    proof {
        reveal_with_fuel(p256, 3);
        lemma_addr_off_distinct(addr);
    }
    let a1 = crate::rv64alu::add(addr, 1);
    match mem.read(addr) {
        None => {
            return false;
        },
        Some(_) => {},
    }
    match mem.read(a1) {
        None => {
            return false;
        },
        Some(_) => {},
    }
    mem.write(addr, (val % 0x100) as u8);
    mem.write(a1, ((val / 0x100) % 0x100) as u8);
    true
}

/// Write the low four bytes of `val` little-endian; all or nothing.
pub fn write32<M: MemIf>(mem: &mut M, addr: u64, val: u64) -> (ok: bool)
    requires
        old(mem).inv(),
    ensures
        final(mem).inv(),
        ok == (old(mem).mapped(addr) && old(mem).mapped(addr_off(addr, 1)) && old(mem).mapped(
            addr_off(addr, 2),
        ) && old(mem).mapped(addr_off(addr, 3))),
        same_regions(*old(mem), *final(mem)),
        ok ==> wrote_le_4(*old(mem), *final(mem), addr, val),
        !ok ==> *final(mem) == *old(mem),
{
    proof {
        reveal_with_fuel(p256, 5);
        lemma_addr_off_distinct(addr);
    }
    let a1 = crate::rv64alu::add(addr, 1);
    let a2 = crate::rv64alu::add(addr, 2);
    let a3 = crate::rv64alu::add(addr, 3);
    match mem.read(addr) {
        None => {
            return false;
        },
        Some(_) => {},
    }
    match mem.read(a1) {
        None => {
            return false;
        },
        Some(_) => {},
    }
    match mem.read(a2) {
        None => {
            return false;
        },
        Some(_) => {},
    }
    match mem.read(a3) {
        None => {
            return false;
        },
        Some(_) => {},
    }
    mem.write(addr, (val % 0x100) as u8);
    mem.write(a1, ((val / 0x100) % 0x100) as u8);
    mem.write(a2, ((val / 0x1_0000) % 0x100) as u8);
    mem.write(a3, ((val / 0x100_0000) % 0x100) as u8);
    true
}

/// Write all eight bytes of `val` little-endian; all or nothing.
pub fn write64<M: MemIf>(mem: &mut M, addr: u64, val: u64) -> (ok: bool)
    requires
        old(mem).inv(),
    ensures
        final(mem).inv(),
        ok == (old(mem).mapped(addr) && old(mem).mapped(addr_off(addr, 1)) && old(mem).mapped(
            addr_off(addr, 2),
        ) && old(mem).mapped(addr_off(addr, 3)) && old(mem).mapped(addr_off(addr, 4)) && old(
            mem,
        ).mapped(addr_off(addr, 5)) && old(mem).mapped(addr_off(addr, 6)) && old(mem).mapped(
            addr_off(addr, 7),
        )),
        same_regions(*old(mem), *final(mem)),
        ok ==> wrote_le_8(*old(mem), *final(mem), addr, val),
        !ok ==> *final(mem) == *old(mem),
{
    proof {
        reveal_with_fuel(p256, 9);
        lemma_addr_off_distinct(addr);
    }
    let a1 = crate::rv64alu::add(addr, 1);
    let a2 = crate::rv64alu::add(addr, 2);
    let a3 = crate::rv64alu::add(addr, 3);
    let a4 = crate::rv64alu::add(addr, 4);
    let a5 = crate::rv64alu::add(addr, 5);
    let a6 = crate::rv64alu::add(addr, 6);
    let a7 = crate::rv64alu::add(addr, 7);
    match mem.read(addr) {
        None => {
            return false;
        },
        Some(_) => {},
    }
    match mem.read(a1) {
        None => {
            return false;
        },
        Some(_) => {},
    }
    match mem.read(a2) {
        None => {
            return false;
        },
        Some(_) => {},
    }
    match mem.read(a3) {
        None => {
            return false;
        },
        Some(_) => {},
    }
    match mem.read(a4) {
        None => {
            return false;
        },
        Some(_) => {},
    }
    match mem.read(a5) {
        None => {
            return false;
        },
        Some(_) => {},
    }
    match mem.read(a6) {
        None => {
            return false;
        },
        Some(_) => {},
    }
    match mem.read(a7) {
        None => {
            return false;
        },
        Some(_) => {},
    }
    mem.write(addr, (val % 0x100) as u8);
    mem.write(a1, ((val / 0x100) % 0x100) as u8);
    mem.write(a2, ((val / 0x1_0000) % 0x100) as u8);
    mem.write(a3, ((val / 0x100_0000) % 0x100) as u8);
    mem.write(a4, ((val / 0x1_0000_0000) % 0x100) as u8);
    mem.write(a5, ((val / 0x100_0000_0000) % 0x100) as u8);
    mem.write(a6, ((val / 0x1_0000_0000_0000) % 0x100) as u8);
    mem.write(a7, ((val / 0x100_0000_0000_0000) % 0x100) as u8);
    true
}

/// Copy `len` bytes out of memory, for handing a guest buffer to the host.
/// `None` if any byte of the block is unmapped.
pub fn read_bytes<M: MemIf>(mem: &M, addr: u64, len: u64) -> (r: Option<Vec<u8>>)
    requires
        mem.inv(),
        addr + len <= u64::MAX,
    ensures
        (forall|k: u64| k < len ==> mem.mapped(#[trigger] ((addr + k) as u64))) ==> r is Some,
        r is Some ==> r->0@.len() == len && (forall|k: u64|
            k < len ==> mem.mapped(#[trigger] ((addr + k) as u64))),
        r is Some ==> forall|k: int|
            0 <= k < len ==> r->0@[k] == mem.byte_at(#[trigger] ((addr + k) as u64)),
{
    let mut out: Vec<u8> = Vec::new();
    let mut i: u64 = 0;
    while i < len
        invariant
            mem.inv(),
            addr + len <= u64::MAX,
            i <= len,
            out@.len() == i,
            forall|k: u64| k < i ==> mem.mapped(#[trigger] ((addr + k) as u64)),
            forall|k: int| 0 <= k < i ==> out@[k] == mem.byte_at(#[trigger] ((addr + k) as u64)),
        decreases len - i,
    {
        match mem.read(addr + i) {
            Some(b) => {
                out.push(b);
            },
            None => {
                return None;
            },
        }
        i = i + 1;
    }
    Some(out)
}

/// Copy a host buffer into memory, for writing a host record back to the
/// guest. All or nothing: `false` (and no change) if any byte of the block
/// is unmapped.
pub fn write_bytes<M: MemIf>(mem: &mut M, addr: u64, data: &Vec<u8>) -> (ok: bool)
    requires
        old(mem).inv(),
        addr + data@.len() <= u64::MAX,
    ensures
        final(mem).inv(),
        same_regions(*old(mem), *final(mem)),
        ok == (forall|k: u64| k < data@.len() ==> old(mem).mapped(#[trigger] ((addr + k) as u64))),
        ok ==> forall|k: int|
            0 <= k < data@.len() ==> final(mem).byte_at(#[trigger] ((addr + k) as u64)) == data@[k],
        forall|a: u64|
            (a < addr || a >= addr + data@.len()) ==> #[trigger] final(mem).byte_at(a) == old(
                mem,
            ).byte_at(a),
        !ok ==> *final(mem) == *old(mem),
{
    let n = data.len();
    let mut i: usize = 0;
    while i < n
        invariant
            mem.inv(),
            *mem == *old(mem),
            n == data@.len(),
            addr + n <= u64::MAX,
            i <= n,
            forall|k: u64| k < i ==> mem.mapped(#[trigger] ((addr + k) as u64)),
        decreases n - i,
    {
        match mem.read(addr + i as u64) {
            Some(_) => {},
            None => {
                return false;
            },
        }
        i = i + 1;
    }
    let mut i: usize = 0;
    while i < n
        invariant
            mem.inv(),
            n == data@.len(),
            addr + n <= u64::MAX,
            i <= n,
            same_regions(*old(mem), *mem),
            forall|k: u64| k < n ==> mem.mapped(#[trigger] ((addr + k) as u64)),
            forall|k: int| 0 <= k < i ==> mem.byte_at(#[trigger] ((addr + k) as u64)) == data@[k],
            forall|a: u64|
                (a < addr || a >= addr + i) ==> #[trigger] mem.byte_at(a) == old(mem).byte_at(a),
        decreases n - i,
    {
        mem.write(addr + i as u64, data[i]);
        i = i + 1;
    }
    true
}

/// Little-endian round trip: after a 64-bit store of `val`, the eight bytes
/// compose back to exactly `val`.
pub proof fn lemma_le_round_trip<M: MemIf>(pre: M, post: M, addr: u64, val: u64)
    requires
        wrote_le_8(pre, post, addr, val),
    ensures
        read_le(&post, addr, 8) == val,
{
    reveal_with_fuel(read_le, 10);
    reveal_with_fuel(p256, 10);
    lemma_addr_off_step(addr, 1);
    lemma_addr_off_step(addr, 2);
    lemma_addr_off_step(addr, 3);
    lemma_addr_off_step(addr, 4);
    lemma_addr_off_step(addr, 5);
    lemma_addr_off_step(addr, 6);
    lemma_addr_off_step(addr, 7);
    assert((val % 0x100) + 0x100 * (((val / 0x100) % 0x100) + 0x100 * (((val / 0x1_0000) % 0x100)
        + 0x100 * (((val / 0x100_0000) % 0x100) + 0x100 * (((val / 0x1_0000_0000) % 0x100) + 0x100
        * (((val / 0x100_0000_0000) % 0x100) + 0x100 * (((val / 0x1_0000_0000_0000) % 0x100)
        + 0x100 * ((val / 0x100_0000_0000_0000) % 0x100))))))) == val) by (bit_vector);
}

/// Read one byte zero-extended to a word; `None` if the address is unmapped.
pub fn read8<M: MemIf>(mem: &M, addr: u64) -> (r: Option<u64>)
    requires
        mem.inv(),
    ensures
        mapped_range(mem, addr, 1) ==> r == Some(read_le(mem, addr, 1) as u64),
        !mapped_range(mem, addr, 1) ==> r is None,
{
    proof {
        reveal_with_fuel(mapped_range, 2);
        reveal_with_fuel(read_le, 2);
    }
    match mem.read(addr) {
        Some(b) => Some(b as u64),
        None => None,
    }
}

/// Read a 16-bit little-endian value; `None` if any byte is unmapped.
pub fn read16<M: MemIf>(mem: &M, addr: u64) -> (r: Option<u64>)
    requires
        mem.inv(),
    ensures
        mapped_range(mem, addr, 2) ==> r == Some(read_le(mem, addr, 2) as u64),
        !mapped_range(mem, addr, 2) ==> r is None,
{
    proof {
        reveal_with_fuel(mapped_range, 3);
        reveal_with_fuel(read_le, 3);
        reveal_with_fuel(p256, 3);
        lemma_read_le_bound(mem, addr, 2);
    }
    let a1 = crate::rv64alu::add(addr, 1);
    let b0 = match mem.read(addr) {
        Some(b) => b,
        None => {
            return None;
        },
    };
    let b1 = match mem.read(a1) {
        Some(b) => b,
        None => {
            return None;
        },
    };
    Some((b0 as u64) + 0x100 * (b1 as u64))
}

/// Read a 32-bit little-endian value; `None` if any byte is unmapped.
pub fn read32<M: MemIf>(mem: &M, addr: u64) -> (r: Option<u64>)
    requires
        mem.inv(),
    ensures
        mapped_range(mem, addr, 4) ==> r == Some(read_le(mem, addr, 4) as u64),
        !mapped_range(mem, addr, 4) ==> r is None,
{
    proof {
        reveal_with_fuel(mapped_range, 6);
        reveal_with_fuel(read_le, 6);
        reveal_with_fuel(p256, 6);
        lemma_read_le_bound(mem, addr, 4);
        lemma_read_le_bound(mem, addr, 2);
        lemma_addr_off_step(addr, 1);
        lemma_addr_off_step(addr, 2);
        lemma_addr_off_step(addr, 3);
    }
    let a2 = crate::rv64alu::add(addr, 2);
    let lo = match read16(mem, addr) {
        Some(v) => v,
        None => {
            return None;
        },
    };
    let hi = match read16(mem, a2) {
        Some(v) => v,
        None => {
            return None;
        },
    };
    proof {
        lemma_read_le_bound(mem, a2, 2);
        assert(read_le(mem, addr, 4) == read_le(mem, addr, 2) + 0x1_0000 * read_le(
            mem,
            addr_off(addr, 2),
            2,
        ));
    }
    Some(lo + 0x1_0000 * hi)
}

/// Read a 64-bit little-endian value; `None` if any byte is unmapped.
pub fn read64<M: MemIf>(mem: &M, addr: u64) -> (r: Option<u64>)
    requires
        mem.inv(),
    ensures
        mapped_range(mem, addr, 8) ==> r == Some(read_le(mem, addr, 8) as u64),
        !mapped_range(mem, addr, 8) ==> r is None,
{
    proof {
        reveal_with_fuel(mapped_range, 10);
        reveal_with_fuel(read_le, 10);
        reveal_with_fuel(p256, 10);
        lemma_read_le_bound(mem, addr, 8);
        lemma_read_le_bound(mem, addr, 4);
        lemma_addr_off_step(addr, 1);
        lemma_addr_off_step(addr, 2);
        lemma_addr_off_step(addr, 3);
        lemma_addr_off_step(addr, 4);
        lemma_addr_off_step(addr, 5);
        lemma_addr_off_step(addr, 6);
        lemma_addr_off_step(addr, 7);
    }
    let a4 = crate::rv64alu::add(addr, 4);
    let lo = match read32(mem, addr) {
        Some(v) => v,
        None => {
            return None;
        },
    };
    let hi = match read32(mem, a4) {
        Some(v) => v,
        None => {
            return None;
        },
    };
    proof {
        lemma_read_le_bound(mem, a4, 4);
        assert(read_le(mem, addr, 8) == read_le(mem, addr, 4) + 0x1_0000_0000 * read_le(
            mem,
            addr_off(addr, 4),
            4,
        ));
    }
    Some(lo + 0x1_0000_0000 * hi)
}

} // verus!
