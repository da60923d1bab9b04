//! The emulated machine as the Windows API routines see it: a flat byte
//! memory at a base address, a stack top, a bump heap, the registry and the
//! table of imported routines.

pub mod com;
pub mod imports;
pub mod windows;

use vstd::prelude::*;

use crate::registry::store::Registry;
use self::com::ComState;
use self::imports::Import;

verus! {

/// Errors of memory access and allocation.
#[derive(Debug, Clone, Copy, PartialEq, Eq)]
pub enum VmError {
    MemoryOutOfRange,
    OutOfMemory,
    /// Input that the machine cannot take, with what is wrong with it.
    InvalidConfig(&'static str),
}

/// The system whose ANSI code page the machine follows.
#[derive(Debug, Clone, Copy, PartialEq, Eq)]
pub enum Os {
    Windows,
    Unix,
}

/// The machine.
pub struct Vm {
    /// The bytes of memory, the first at address `base`.
    pub memory: Vec<u8>,
    pub base: u32,
    pub stack_top: u32,
    /// The heap: `[heap_start, heap_end)`, allocated up to `heap_cursor`.
    pub heap_start: u32,
    pub heap_end: u32,
    pub heap_cursor: u32,
    pub os: Os,
    pub registry: Option<Registry>,
    pub imports: Vec<Import>,
    /// The ECX register as a routine finds it: the `this` of a thiscall.
    pub ecx: u32,
    /// The COM objects that the automation routines keep.
    pub com: ComState,
}

/// Whether `n` bytes at `addr` lie in memory (below the 4 GiB limit of
/// the address space).
pub open spec fn in_range(vm: &Vm, addr: int, n: int) -> bool {
    &&& vm.base <= addr
    &&& addr - vm.base + n <= vm.memory@.len()
    &&& addr + n <= 0x1_0000_0000
}

/// The byte at `addr` (which lies in memory).
pub open spec fn byte_at(vm: &Vm, addr: int) -> u8 {
    vm.memory@[addr - vm.base]
}

/// The little-endian 16-bit value of `s[i..i + 2]`.
pub open spec fn le16(s: Seq<u8>, i: int) -> u16 {
    (s[i] + 256 * s[i + 1]) as u16
}

/// The little-endian 32-bit value of `s[i..i + 4]`.
pub open spec fn le32(s: Seq<u8>, i: int) -> u32 {
    (s[i] + 256 * s[i + 1] + 65536 * s[i + 2] + 16777216 * s[i + 3]) as u32
}

/// The little-endian bytes of a 16-bit value.
pub open spec fn bytes16(v: u16) -> Seq<u8> {
    seq![(v % 256) as u8, (v / 256) as u8]
}

/// The little-endian bytes of a 32-bit value.
pub open spec fn bytes32(v: u32) -> Seq<u8> {
    seq![(v % 256) as u8, ((v / 256) % 256) as u8, ((v / 65536) % 256) as u8, (v / 16777216) as u8]
}

/// `s` with `b` written over it from index `i`.
pub open spec fn splice(s: Seq<u8>, i: int, b: Seq<u8>) -> Seq<u8> {
    s.take(i) + b + s.skip(i + b.len())
}

/// The 16-bit value at `addr`, if it lies in memory.
pub open spec fn mem_u16(vm: &Vm, addr: int) -> Option<u16> {
    if in_range(vm, addr, 2) {
        Some(le16(vm.memory@, addr - vm.base))
    } else {
        None
    }
}

/// The 32-bit value at `addr`, if it lies in memory.
pub open spec fn mem_u32(vm: &Vm, addr: int) -> Option<u32> {
    if in_range(vm, addr, 4) {
        Some(le32(vm.memory@, addr - vm.base))
    } else {
        None
    }
}

/// The 32-bit value at `addr`, or 0 where it does not lie in memory.
pub open spec fn u32_or0(vm: &Vm, addr: int) -> u32 {
    match mem_u32(vm, addr) {
        Some(v) => v,
        None => 0,
    }
}

/// The 16-bit value at `addr`, or 0 where it does not lie in memory.
pub open spec fn u16_or0(vm: &Vm, addr: int) -> u16 {
    match mem_u16(vm, addr) {
        Some(v) => v,
        None => 0,
    }
}

/// The `i`-th 32-bit argument of a call whose stack pointer is `sp` (above
/// the return address), or 0 where it cannot be read.
pub open spec fn arg(vm: &Vm, sp: u32, i: int) -> u32 {
    u32_or0(vm, sp + 4 + 4 * i)
}

/// The `n` bytes at `addr` (which lie in memory).
pub open spec fn mem_bytes(vm: &Vm, addr: int, n: int) -> Seq<u8> {
    vm.memory@.subrange(addr - vm.base, addr - vm.base + n)
}

/// The byte at `addr`, or 0 where it does not lie in memory.
pub open spec fn u8_or0(vm: &Vm, addr: int) -> u8 {
    if in_range(vm, addr, 1) {
        byte_at(vm, addr)
    } else {
        0
    }
}

/// The memory after writing `b` at `addr`.
pub open spec fn written(vm: &Vm, addr: int, b: Seq<u8>) -> Seq<u8> {
    splice(vm.memory@, addr - vm.base, b)
}

/// Everything of the machine but its memory is as it was.
pub open spec fn same_but_memory(a: &Vm, b: &Vm) -> bool {
    &&& a.base == b.base
    &&& a.stack_top == b.stack_top
    &&& a.heap_start == b.heap_start
    &&& a.heap_end == b.heap_end
    &&& a.heap_cursor == b.heap_cursor
    &&& a.os == b.os
    &&& a.registry == b.registry
    &&& a.imports == b.imports
    &&& a.ecx == b.ecx
    &&& a.com == b.com
}

/// Whether `n` bytes at `addr` lie in a memory `m` at `base`.
pub open spec fn fits(base: u32, m: Seq<u8>, addr: int, n: int) -> bool {
    &&& base <= addr
    &&& addr - base + n <= m.len()
    &&& addr + n <= 0x1_0000_0000
}

/// A memory `m` at `base` after writing `b` at `addr`, where it fits.
pub open spec fn store(base: u32, m: Seq<u8>, addr: int, b: Seq<u8>) -> Seq<u8> {
    if fits(base, m, addr, b.len() as int) {
        splice(m, addr - base, b)
    } else {
        m
    }
}

/// Applying writes in order, each where it fits, up to the first that
/// does not: whether all were made, and the memory after them.
pub open spec fn apply_writes(base: u32, m: Seq<u8>, parts: Seq<(u32, Seq<u8>)>) -> (bool, Seq<u8>)
    decreases parts.len(),
{
    if parts.len() == 0 {
        (true, m)
    } else if fits(base, m, parts[0].0 as int, parts[0].1.len() as int) {
        apply_writes(base, splice(m, parts[0].0 - base, parts[0].1), parts.drop_first())
    } else {
        (false, m)
    }
}

/// 32-bit wrapping addition (`u32::wrapping_add`).
pub open spec fn add32(a: u32, b: u32) -> u32 {
    if a + b > u32::MAX {
        (a + b - 0x1_0000_0000) as u32
    } else {
        (a + b) as u32
    }
}

/// `u32::wrapping_add`.
pub fn wrap_add(a: u32, b: u32) -> (r: u32)
    ensures
        r == add32(a, b),
{
    if a as u64 + b as u64 > u32::MAX as u64 {
        (a as u64 + b as u64 - 0x1_0000_0000) as u32
    } else {
        a + b
    }
}

/// `c` rounded up to a multiple of `a`.
pub open spec fn align_up(c: int, a: int) -> int {
    if c % a == 0 {
        c
    } else {
        c + a - c % a
    }
}

/// The bytes in front of each heap block, which hold its length.
pub const BLOCK_HEADER: u32 = 4;

/// Where the next block aligned to `align` starts: past the heap cursor
/// and the block's header.
pub open spec fn block_at(vm: &Vm, align: int) -> int {
    align_up(vm.heap_cursor + BLOCK_HEADER, align)
}

/// Where a block of `n` bytes aligned to `align` would be allocated, if the
/// heap has room for it and it lies in memory with its header.
pub open spec fn alloc_at(vm: &Vm, n: int, align: int) -> Option<int> {
    let p = block_at(vm, align);
    if p + n <= vm.heap_end && in_range(vm, p - BLOCK_HEADER, n + BLOCK_HEADER) {
        Some(p)
    } else {
        None
    }
}

/// A block as it stands in memory: its length, then its bytes.
pub open spec fn block_image(image: Seq<u8>) -> Seq<u8> {
    bytes32(image.len() as u32) + image
}

/// Everything of the machine but its memory and heap cursor is as it was.
pub open spec fn same_but_heap(a: &Vm, b: &Vm) -> bool {
    &&& a.base == b.base
    &&& a.stack_top == b.stack_top
    &&& a.heap_start == b.heap_start
    &&& a.heap_end == b.heap_end
    &&& a.os == b.os
    &&& a.registry == b.registry
    &&& a.imports == b.imports
    &&& a.ecx == b.ecx
    &&& a.com == b.com
}

/// `b` is `a` after allocating the block `image` at `p`.
pub open spec fn allocated(a: &Vm, b: &Vm, p: int, image: Seq<u8>) -> bool {
    &&& same_but_heap(a, b)
    &&& b.memory@ == written(a, p - BLOCK_HEADER, block_image(image))
    &&& b.heap_cursor == p + image.len()
}

/// The little-endian bytes of 32-bit words, one after another.
pub open spec fn words(ws: Seq<u32>) -> Seq<u8>
    decreases ws.len(),
{
    if ws.len() == 0 {
        Seq::empty()
    } else {
        words(ws.drop_last()) + bytes32(ws.last())
    }
}

pub proof fn lemma_words_len(ws: Seq<u32>)
    ensures
        words(ws).len() == 4 * ws.len(),
    decreases ws.len(),
{
    if ws.len() > 0 {
        lemma_words_len(ws.drop_last());
    }
}

/// The `i`-th word reads back from its place.
pub proof fn lemma_words_at(ws: Seq<u32>, i: int)
    requires
        0 <= i < ws.len(),
    ensures
        le32(words(ws), 4 * i) == ws[i],
    decreases ws.len(),
{
    lemma_words_len(ws);
    lemma_words_len(ws.drop_last());
    let w = words(ws);
    let pre = words(ws.drop_last());
    if i == ws.len() - 1 {
        let b = bytes32(ws.last());
        assert(w[4 * i] == b[0]);
        assert(w[4 * i + 1] == b[1]);
        assert(w[4 * i + 2] == b[2]);
        assert(w[4 * i + 3] == b[3]);
        lemma_le32_bytes32(ws.last());
    } else {
        lemma_words_at(ws.drop_last(), i);
        assert(w[4 * i] == pre[4 * i]);
        assert(w[4 * i + 1] == pre[4 * i + 1]);
        assert(w[4 * i + 2] == pre[4 * i + 2]);
        assert(w[4 * i + 3] == pre[4 * i + 3]);
    }
}

/// A 32-bit value written with a block reads back from memory.
pub proof fn lemma_written_u32(vm: &Vm, addr: int, image: Seq<u8>, j: int)
    requires
        in_range(vm, addr, image.len() as int),
        0 <= j,
        j + 4 <= image.len(),
    ensures
        le32(written(vm, addr, image), addr - vm.base + j) == le32(image, j),
{
    let m = written(vm, addr, image);
    let o = addr - vm.base;
    assert(m[o + j] == image[j]);
    assert(m[o + j + 1] == image[j + 1]);
    assert(m[o + j + 2] == image[j + 2]);
    assert(m[o + j + 3] == image[j + 3]);
}

/// `b` is `a` with blocks added to the heap: the machine's bounds as they
/// were, the heap cursor not lower, and every byte of memory outside what
/// lies between the two cursors as it was.
pub open spec fn heap_grown(a: &Vm, b: &Vm) -> bool {
    &&& a.base == b.base
    &&& a.stack_top == b.stack_top
    &&& a.heap_start == b.heap_start
    &&& a.heap_end == b.heap_end
    &&& a.heap_cursor <= b.heap_cursor
    &&& b.memory@.len() == a.memory@.len()
    &&& forall|k: int|
        0 <= k < a.memory@.len() && !(a.heap_cursor <= a.base + k < b.heap_cursor)
            ==> #[trigger] b.memory@[k] == a.memory@[k]
}

/// An allocation grows the heap.
pub proof fn lemma_allocated_grows(a: &Vm, b: &Vm, p: int, image: Seq<u8>, align: int)
    requires
        alloc_at(a, image.len() as int, align) == Some(p),
        allocated(a, b, p, image),
        align > 0,
    ensures
        heap_grown(a, b),
{
    let img = block_image(image);
    assert(img.len() == image.len() + 4);
    assert(p - BLOCK_HEADER >= a.heap_cursor) by {
        assert(align_up(a.heap_cursor + BLOCK_HEADER, align) >= a.heap_cursor + BLOCK_HEADER);
    }
    assert forall|k: int|
        0 <= k < a.memory@.len() && !(a.heap_cursor <= a.base + k < b.heap_cursor)
            implies #[trigger] b.memory@[k] == a.memory@[k] by {
        let o = p - BLOCK_HEADER - a.base;
        if k < o {
        } else {
            assert(k >= o + img.len());
        }
    }
}

/// Growing the heap twice grows it.
pub proof fn lemma_heap_grown_trans(a: &Vm, b: &Vm, c: &Vm)
    requires
        heap_grown(a, b),
        heap_grown(b, c),
    ensures
        heap_grown(a, c),
{
    assert forall|k: int|
        0 <= k < a.memory@.len() && !(a.heap_cursor <= a.base + k < c.heap_cursor)
            implies #[trigger] c.memory@[k] == a.memory@[k] by {
        assert(c.memory@[k] == b.memory@[k]);
        assert(b.memory@[k] == a.memory@[k]);
    }
}

/// A 32-bit value stored where it lies in memory reads back from there,
/// and every other byte of memory stays as it was.
pub proof fn law_u32_reads_back(a: &Vm, b: &Vm, addr: int, v: u32)
    requires
        in_range(a, addr, 4),
        same_but_memory(a, b),
        b.memory@ == store(a.base, a.memory@, addr, bytes32(v)),
    ensures
        mem_u32(b, addr) == Some(v),
        forall|k: int| 0 <= k < a.memory@.len() && !(addr <= a.base + k < addr + 4)
            ==> #[trigger] b.memory@[k] == a.memory@[k],
{
    lemma_written_u32(a, addr, bytes32(v), 0);
    lemma_le32_bytes32(v);
}

/// Reading back what was written.
pub proof fn lemma_le32_bytes32(v: u32)
    ensures
        le32(bytes32(v), 0) == v,
{
}

pub proof fn lemma_le16_bytes16(v: u16)
    ensures
        le16(bytes16(v), 0) == v,
{
}

impl Vm {
    /// A machine with `size` bytes of zeroed memory at `base`, the stack at
    /// the top of memory and the heap `[heap_start, heap_end)`.
    pub fn new(size: usize, base: u32, heap_start: u32, heap_end: u32) -> (vm: Vm)
        requires
            size >= 4,
            base + size <= u32::MAX + 1,
        ensures
            vm.memory@ == Seq::new(size as nat, |i: int| 0u8),
            vm.base == base,
            vm.stack_top == base + size - 4,
            vm.heap_start == heap_start,
            vm.heap_end == heap_end,
            vm.heap_cursor == heap_start,
            vm.os == Os::Windows,
            vm.registry is None,
            vm.imports@.len() == 0,
            vm.ecx == 0,
            vm.com.is_fresh(),
    {
        let mut memory: Vec<u8> = Vec::new();
        let mut i: usize = 0;
        while i < size
            invariant
                i <= size,
                memory@ == Seq::new(i as nat, |j: int| 0u8),
            decreases size - i,
        {
            memory.push(0);
            i = i + 1;
            assert(memory@ =~= Seq::new(i as nat, |j: int| 0u8));
        }
        let top = (base as u64 + size as u64 - 4) as u32;
        Vm {
            memory,
            base,
            stack_top: top,
            heap_start,
            heap_end,
            heap_cursor: heap_start,
            os: Os::Windows,
            registry: None,
            imports: Vec::new(),
            ecx: 0,
            com: ComState::new(),
        }
    }

    /// The index in memory of `n` bytes at `addr`, where they lie in it.
    fn offset_of(&self, addr: u32, n: usize) -> (r: Option<usize>)
        ensures
            match r {
                Some(off) => in_range(self, addr as int, n as int) && off == addr - self.base,
                None => !in_range(self, addr as int, n as int),
            },
    {
        if addr < self.base || n as u64 > 0x1_0000_0000u64 - addr as u64 {
            return None;
        }
        let off = (addr - self.base) as usize;
        if off > self.memory.len() || self.memory.len() - off < n {
            None
        } else {
            Some(off)
        }
    }

    /// Whether `addr` lies in memory.
    pub fn contains_addr(&self, addr: u32) -> (r: bool)
        ensures
            r == in_range(self, addr as int, 1),
    {
        self.offset_of(addr, 1).is_some()
    }

    pub fn read_u8(&self, addr: u32) -> (r: Result<u8, VmError>)
        ensures
            match r {
                Ok(v) => in_range(self, addr as int, 1) && v == byte_at(self, addr as int),
                Err(e) => !in_range(self, addr as int, 1) && e == VmError::MemoryOutOfRange,
            },
    {
        match self.offset_of(addr, 1) {
            Some(off) => Ok(self.memory[off]),
            None => Err(VmError::MemoryOutOfRange),
        }
    }

    pub fn read_u16(&self, addr: u32) -> (r: Result<u16, VmError>)
        ensures
            match r {
                Ok(v) => mem_u16(self, addr as int) == Some(v),
                Err(e) => mem_u16(self, addr as int) is None && e == VmError::MemoryOutOfRange,
            },
    {
        match self.offset_of(addr, 2) {
            Some(off) => {
                let b0 = self.memory[off] as u16;
                let b1 = self.memory[off + 1] as u16;
                Ok(b0 + 256 * b1)
            },
            None => Err(VmError::MemoryOutOfRange),
        }
    }

    pub fn read_u32(&self, addr: u32) -> (r: Result<u32, VmError>)
        ensures
            match r {
                Ok(v) => mem_u32(self, addr as int) == Some(v),
                Err(e) => mem_u32(self, addr as int) is None && e == VmError::MemoryOutOfRange,
            },
    {
        match self.offset_of(addr, 4) {
            Some(off) => {
                let b0 = self.memory[off] as u32;
                let b1 = self.memory[off + 1] as u32;
                let b2 = self.memory[off + 2] as u32;
                let b3 = self.memory[off + 3] as u32;
                Ok(b0 + 256 * b1 + 65536 * b2 + 16777216 * b3)
            },
            None => Err(VmError::MemoryOutOfRange),
        }
    }

    /// The `n` bytes at `addr`, where they lie in memory.
    pub fn read_bytes(&self, addr: u32, n: usize) -> (r: Result<Vec<u8>, VmError>)
        ensures
            match r {
                Ok(b) => in_range(self, addr as int, n as int) && b@ == mem_bytes(self, addr as int, n as int),
                Err(e) => !in_range(self, addr as int, n as int) && e == VmError::MemoryOutOfRange,
            },
    {
        let off = match self.offset_of(addr, n) {
            Some(off) => off,
            None => return Err(VmError::MemoryOutOfRange),
        };
        let mlen = self.memory.len();
        let mut out: Vec<u8> = Vec::new();
        let mut i: usize = 0;
        while i < n
            invariant
                mlen == self.memory@.len(),
                off + n <= self.memory@.len(),
                i <= n,
                out@ == self.memory@.subrange(off as int, off + i),
            decreases n - i,
        {
            out.push(self.memory[off + i]);
            i = i + 1;
            assert(out@ =~= self.memory@.subrange(off as int, off + i));
        }
        Ok(out)
    }

    /// The 32-bit value at `addr`, or 0 where it does not lie in memory.
    pub fn read_u32_or0(&self, addr: u32) -> (r: u32)
        ensures
            r == u32_or0(self, addr as int),
    {
        match self.read_u32(addr) {
            Ok(v) => v,
            Err(_) => 0,
        }
    }

    /// The 16-bit value at `addr`, or 0 where it does not lie in memory.
    pub fn read_u16_or0(&self, addr: u32) -> (r: u16)
        ensures
            r == u16_or0(self, addr as int),
    {
        match self.read_u16(addr) {
            Ok(v) => v,
            Err(_) => 0,
        }
    }

    /// The `i`-th 32-bit argument of a call with stack pointer `sp`.
    pub fn arg(&self, sp: u32, i: u32) -> (r: u32)
        requires
            i < 16,
        ensures
            r == arg(self, sp, i as int),
    {
        let a = sp as u64 + 4 + 4 * (i as u64);
        if a > u32::MAX as u64 {
            0
        } else {
            self.read_u32_or0(a as u32)
        }
    }

    /// Writes `bytes` at `addr`; nothing is written where they do not all
    /// lie in memory.
    pub fn write_bytes(&mut self, addr: u32, bytes: &[u8]) -> (r: Result<(), VmError>)
        ensures
            same_but_memory(old(self), final(self)),
            final(self).memory@ == store(old(self).base, old(self).memory@, addr as int, bytes@),
            match r {
                Ok(()) => in_range(old(self), addr as int, bytes@.len() as int)
                    && final(self).memory@ == written(old(self), addr as int, bytes@),
                Err(e) => !in_range(old(self), addr as int, bytes@.len() as int)
                    && e == VmError::MemoryOutOfRange && final(self).memory@ == old(self).memory@,
            },
    {
        let off = match self.offset_of(addr, bytes.len()) {
            Some(off) => off,
            None => return Err(VmError::MemoryOutOfRange),
        };
        let ghost m0 = self.memory@;
        let mlen = self.memory.len();
        let mut i: usize = 0;
        while i < bytes.len()
            invariant
                same_but_memory(old(self), self),
                m0 == old(self).memory@,
                mlen == m0.len(),
                off + bytes@.len() <= self.memory@.len(),
                self.memory@.len() == m0.len(),
                i <= bytes@.len(),
                self.memory@ == m0.take(off as int) + bytes@.take(i as int) + m0.skip(off + i),
            decreases bytes.len() - i,
        {
            self.memory.set(off + i, bytes[i]);
            i = i + 1;
            assert(self.memory@ =~= m0.take(off as int) + bytes@.take(i as int) + m0.skip(off + i));
        }
        assert(bytes@.take(bytes@.len() as int) =~= bytes@);
        Ok(())
    }

    pub fn write_u8(&mut self, addr: u32, v: u8) -> (r: Result<(), VmError>)
        ensures
            same_but_memory(old(self), final(self)),
            final(self).memory@ == store(old(self).base, old(self).memory@, addr as int, seq![v]),
            match r {
                Ok(()) => in_range(old(self), addr as int, 1)
                    && final(self).memory@ == written(old(self), addr as int, seq![v]),
                Err(e) => !in_range(old(self), addr as int, 1)
                    && e == VmError::MemoryOutOfRange && final(self).memory@ == old(self).memory@,
            },
    {
        let b = [v];
        assert(b@ =~= seq![v]);
        self.write_bytes(addr, &b)
    }

    pub fn write_u16(&mut self, addr: u32, v: u16) -> (r: Result<(), VmError>)
        ensures
            same_but_memory(old(self), final(self)),
            final(self).memory@ == store(old(self).base, old(self).memory@, addr as int, bytes16(v)),
            match r {
                Ok(()) => in_range(old(self), addr as int, 2)
                    && final(self).memory@ == written(old(self), addr as int, bytes16(v)),
                Err(e) => !in_range(old(self), addr as int, 2)
                    && e == VmError::MemoryOutOfRange && final(self).memory@ == old(self).memory@,
            },
    {
        let b = [(v % 256) as u8, (v / 256) as u8];
        assert(b@ =~= bytes16(v));
        self.write_bytes(addr, &b)
    }

    pub fn write_u32(&mut self, addr: u32, v: u32) -> (r: Result<(), VmError>)
        ensures
            same_but_memory(old(self), final(self)),
            final(self).memory@ == store(old(self).base, old(self).memory@, addr as int, bytes32(v)),
            match r {
                Ok(()) => in_range(old(self), addr as int, 4)
                    && final(self).memory@ == written(old(self), addr as int, bytes32(v)),
                Err(e) => !in_range(old(self), addr as int, 4)
                    && e == VmError::MemoryOutOfRange && final(self).memory@ == old(self).memory@,
            },
    {
        let b = [(v % 256) as u8, ((v / 256) % 256) as u8, ((v / 65536) % 256) as u8, (v / 16777216) as u8];
        assert(b@ =~= bytes32(v));
        self.write_bytes(addr, &b)
    }

    /// Copies `bytes` into the heap at the cursor rounded up to `align`, and
    /// returns that address; fails where the heap has no room or does not
    /// lie in memory, leaving the machine unchanged.
    pub fn alloc_bytes(&mut self, bytes: &[u8], align: u32) -> (r: Result<u32, VmError>)
        requires
            align > 0,
        ensures
            same_but_heap(old(self), final(self)),
            match r {
                Ok(a) => alloc_at(old(self), bytes@.len() as int, align as int) == Some(a as int)
                    && allocated(old(self), final(self), a as int, bytes@),
                Err(e) => alloc_at(old(self), bytes@.len() as int, align as int) is None
                    && final(self).memory@ == old(self).memory@
                    && final(self).heap_cursor == old(self).heap_cursor
                    && e == (if block_at(old(self), align as int) + bytes@.len() <= old(self).heap_end {
                        VmError::MemoryOutOfRange
                    } else {
                        VmError::OutOfMemory
                    }),
            },
    {
        let c = self.heap_cursor as u64 + BLOCK_HEADER as u64;
        if bytes.len() as u64 > self.heap_end as u64 {
            return Err(VmError::OutOfMemory);
        }
        let rem = c % (align as u64);
        let p: u64 = if rem == 0 { c } else { c + (align as u64) - rem };
        let end = p + bytes.len() as u64;
        if end > self.heap_end as u64 {
            return Err(VmError::OutOfMemory);
        }
        let n = bytes.len() as u32;
        let mut block: Vec<u8> = Vec::new();
        block.push((n % 256) as u8);
        block.push(((n / 256) % 256) as u8);
        block.push(((n / 65536) % 256) as u8);
        block.push((n / 16777216) as u8);
        assert(block@ =~= bytes32(n));
        let mut i: usize = 0;
        while i < bytes.len()
            invariant
                i <= bytes@.len(),
                block@ == bytes32(n) + bytes@.take(i as int),
            decreases bytes.len() - i,
        {
            block.push(bytes[i]);
            i = i + 1;
            assert(block@ =~= bytes32(n) + bytes@.take(i as int));
        }
        assert(bytes@.take(bytes@.len() as int) =~= bytes@);
        let a = p as u32;
        match self.write_bytes(a - BLOCK_HEADER, block.as_slice()) {
            Ok(()) => {
                self.heap_cursor = end as u32;
                Ok(a)
            },
            Err(e) => Err(e),
        }
    }

    /// The length of the heap block at `ptr`, as its header records it.
    pub fn heap_size(&self, ptr: u32) -> (r: Result<u32, VmError>)
        ensures
            match r {
                Ok(n) => ptr >= BLOCK_HEADER && mem_u32(self, ptr - BLOCK_HEADER) == Some(n),
                Err(e) => e == VmError::MemoryOutOfRange
                    && (ptr >= BLOCK_HEADER ==> mem_u32(self, ptr - BLOCK_HEADER) is None),
            },
    {
        if ptr < BLOCK_HEADER {
            return Err(VmError::MemoryOutOfRange);
        }
        self.read_u32(ptr - BLOCK_HEADER)
    }

    /// `malloc`: `size` zeroed bytes on the heap, aligned to 8, or 0 where
    /// they cannot be had.
    pub fn heap_alloc(&mut self, size: usize) -> (r: u32)
        ensures
            same_but_heap(old(self), final(self)),
            match alloc_at(old(self), size as int, 8) {
                Some(p) => r == p && allocated(old(self), final(self), p, Seq::new(size as nat, |i: int| 0u8)),
                None => r == 0 && final(self).memory@ == old(self).memory@
                    && final(self).heap_cursor == old(self).heap_cursor,
            },
    {
        if size > self.memory.len() {
            return 0;
        }
        let mut zeros: Vec<u8> = Vec::new();
        let mut i: usize = 0;
        while i < size
            invariant
                i <= size,
                zeros@ == Seq::new(i as nat, |j: int| 0u8),
            decreases size - i,
        {
            zeros.push(0);
            i = i + 1;
            assert(zeros@ =~= Seq::new(i as nat, |j: int| 0u8));
        }
        match self.alloc_bytes(zeros.as_slice(), 8) {
            Ok(a) => a,
            Err(_) => 0,
        }
    }
}

} // verus!
