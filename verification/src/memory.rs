//! A window onto memory that the bootloader owns.
//!
//! The kernel never writes to this memory and never copies it wholesale: it
//! reads single fields, arrays of addresses and zero-terminated byte strings
//! out of it. [`ForeignMemory`] is such a window, a borrowed run of bytes
//! together with the address of its first byte, and [`MemoryImage`] is what it holds.
//! All multi-byte values are little-endian.
use vstd::prelude::*;

verus! {

/// The value of two bytes, least significant byte first.
pub open spec fn le_u16(b: Seq<u8>) -> u16
    recommends
        b.len() == 2,
{
    (b[0] + 0x100 * b[1]) as u16
}

/// The value of eight bytes, least significant byte first.
pub open spec fn le_u64(b: Seq<u8>) -> u64
    recommends
        b.len() == 8,
{
    (b[0] + 0x100 * b[1] + 0x1_0000 * b[2] + 0x100_0000 * b[3] + 0x1_0000_0000 * b[4]
        + 0x100_0000_0000 * b[5] + 0x1_0000_0000_0000 * b[6] + 0x100_0000_0000_0000 * b[7]) as u64
}

/// What a window holds: `bytes[i]` is the byte at address `base + i`.
pub struct MemoryImage {
    pub base: int,
    pub bytes: Seq<u8>,
}

impl MemoryImage {
    /// The address one past the last byte of the window.
    pub open spec fn end(self) -> int {
        self.base + self.bytes.len()
    }

    /// True when the window lies inside the 64-bit address space.
    pub open spec fn in_address_space(self) -> bool {
        0 <= self.base && self.end() <= 0x1_0000_0000_0000_0000
    }

    /// True when all `len` bytes from `addr` on lie inside the window.
    pub open spec fn maps(self, addr: int, len: int) -> bool {
        0 <= len && self.base <= addr && addr + len <= self.end()
    }

    /// The byte at `addr`.
    pub open spec fn byte(self, addr: int) -> u8
        recommends
            self.maps(addr, 1),
    {
        self.bytes[addr - self.base]
    }

    /// The `len` bytes from `addr` on.
    pub open spec fn run(self, addr: int, len: int) -> Seq<u8>
        recommends
            self.maps(addr, len),
    {
        self.bytes.subrange(addr - self.base, addr - self.base + len)
    }

    /// The 16-bit value stored at `addr`.
    pub open spec fn u16_at(self, addr: int) -> u16
        recommends
            self.maps(addr, 2),
    {
        le_u16(self.run(addr, 2))
    }

    /// The 64-bit value stored at `addr`.
    pub open spec fn u64_at(self, addr: int) -> u64
        recommends
            self.maps(addr, 8),
    {
        le_u64(self.run(addr, 8))
    }

    /// True when the byte string that starts at `addr` ends with a zero byte
    /// at offset `k`: the window holds all of it, and no earlier byte is zero.
    pub open spec fn terminated_at(self, addr: int, k: nat) -> bool {
        &&& self.maps(addr, k as int + 1)
        &&& self.byte(addr + k) == 0
        &&& forall|a: int| addr <= a < addr + k ==> #[trigger] self.byte(a) != 0
    }

    /// True when the window holds a zero-terminated byte string at `addr`.
    pub open spec fn has_terminator(self, addr: int) -> bool {
        exists|k: nat| self.terminated_at(addr, k)
    }

    /// The offset of the zero byte that ends the byte string at `addr`.
    pub open spec fn text_len(self, addr: int) -> nat
        recommends
            self.has_terminator(addr),
    {
        choose|k: nat| self.terminated_at(addr, k)
    }

    /// The bytes of the string at `addr`, without the zero byte that ends it.
    pub open spec fn text_bytes(self, addr: int) -> Seq<u8>
        recommends
            self.has_terminator(addr),
    {
        self.run(addr, self.text_len(addr) as int)
    }

    /// A byte string has one terminator: where a zero byte at offset `k` ends
    /// the string at `addr`, `k` is its length and the `k` bytes before the
    /// zero are its content.
    pub proof fn lemma_terminator_unique(self, addr: int, k: nat)
        requires
            self.terminated_at(addr, k),
        ensures
            self.has_terminator(addr),
            self.text_len(addr) == k,
            self.text_bytes(addr) == self.run(addr, k as int),
            self.text_bytes(addr).len() == k,
    {
        let chosen = self.text_len(addr);
        assert(self.terminated_at(addr, chosen));
        if chosen < k {
            assert(self.byte(addr + chosen) != 0);
        } else if k < chosen {
            assert(self.byte(addr + k) != 0);
        }
    }
}

/// A window onto bootloader-owned memory: the address of its first byte and
/// the bytes themselves, which stay where they are. It never reaches past the
/// end of the address space.
#[derive(Clone, Copy, Debug)]
pub struct ForeignMemory<'a> {
    base: u64,
    bytes: &'a [u8],
}

impl<'a> View for ForeignMemory<'a> {
    type V = MemoryImage;

    closed spec fn view(&self) -> MemoryImage {
        MemoryImage { base: self.base as int, bytes: self.bytes@ }
    }
}

impl<'a> ForeignMemory<'a> {
    #[verifier::type_invariant]
    pub open spec fn inv(&self) -> bool {
        self@.in_address_space()
    }

    /// The window whose first byte, `bytes[0]`, has the address `base`.
    /// There is no such window when the bytes would run past the last address.
    pub fn new(base: u64, bytes: &'a [u8]) -> (mem: Option<Self>)
        ensures
            mem is Some <==> base + bytes@.len() <= 0x1_0000_0000_0000_0000,
            mem is Some ==> mem.unwrap()@ == (MemoryImage { base: base as int, bytes: bytes@ }),
    {
        let room: u64 = u64::MAX - base;
        if bytes.len() as u64 > room && bytes.len() as u64 - room > 1 {
            return None;
        }
        Some(ForeignMemory { base, bytes })
    }

    /// The address of the first byte.
    pub fn base(&self) -> (base: u64)
        ensures
            base == self@.base,
    {
        self.base
    }

    /// The number of bytes in the window.
    pub fn len(&self) -> (len: usize)
        ensures
            len == self@.bytes.len(),
    {
        self.bytes.len()
    }

    /// Tells whether all `len` bytes from `addr` on lie inside the window.
    pub fn contains(&self, addr: u64, len: u64) -> (inside: bool)
        ensures
            inside == self@.maps(addr as int, len as int),
    {
        if addr < self.base {
            return false;
        }
        let offset: u64 = addr - self.base;
        let size: u64 = self.bytes.len() as u64;
        offset <= size && len <= size - offset
    }

    /// The index in the window of the byte at `addr`, where `len` bytes from
    /// `addr` on lie inside it.
    fn offset(&self, addr: u64, len: u64) -> (at: usize)
        requires
            self@.maps(addr as int, len as int),
        ensures
            at == addr - self@.base,
            at + len <= self.bytes@.len(),
            at + len <= usize::MAX,
    {
        let size: usize = self.bytes.len();
        (addr - self.base) as usize
    }

    /// The byte at `addr`.
    pub fn read_u8(&self, addr: u64) -> (value: u8)
        requires
            self@.maps(addr as int, 1),
        ensures
            value == self@.byte(addr as int),
    {
        let at: usize = self.offset(addr, 1);
        self.bytes[at]
    }

    /// The 16-bit value stored at `addr`.
    pub fn read_u16(&self, addr: u64) -> (value: u16)
        requires
            self@.maps(addr as int, 2),
        ensures
            value == self@.u16_at(addr as int),
    {
        let at: usize = self.offset(addr, 2);
        let low: u16 = self.bytes[at] as u16;
        let high: u16 = self.bytes[at + 1] as u16;
        low + 0x100 * high
    }

    /// The 64-bit value stored at `addr`.
    pub fn read_u64(&self, addr: u64) -> (value: u64)
        requires
            self@.maps(addr as int, 8),
        ensures
            value == self@.u64_at(addr as int),
    {
        let at: usize = self.offset(addr, 8);
        let b0: u64 = self.bytes[at] as u64;
        let b1: u64 = self.bytes[at + 1] as u64;
        let b2: u64 = self.bytes[at + 2] as u64;
        let b3: u64 = self.bytes[at + 3] as u64;
        let b4: u64 = self.bytes[at + 4] as u64;
        let b5: u64 = self.bytes[at + 5] as u64;
        let b6: u64 = self.bytes[at + 6] as u64;
        let b7: u64 = self.bytes[at + 7] as u64;
        b0 + 0x100 * b1 + 0x1_0000 * b2 + 0x100_0000 * b3 + 0x1_0000_0000 * b4 + 0x100_0000_0000
            * b5 + 0x1_0000_0000_0000 * b6 + 0x100_0000_0000_0000 * b7
    }

    /// The `len` bytes from `addr` on.
    pub fn bytes_at(&self, addr: u64, len: u64) -> (run: &'a [u8])
        requires
            self@.maps(addr as int, len as int),
        ensures
            run@ == self@.run(addr as int, len as int),
    {
        let at: usize = self.offset(addr, len);
        vstd::slice::slice_subrange(self.bytes, at, at + len as usize)
    }

    /// Looks for the zero byte that ends the byte string at `addr` and returns
    /// its offset. The search stops at the end of the window; it finds nothing
    /// when `addr` lies outside the window or no zero byte follows.
    pub fn terminator(&self, addr: u64) -> (found: Option<u64>)
        ensures
            found is Some <==> self@.has_terminator(addr as int),
            found is Some ==> found.unwrap() == self@.text_len(addr as int),
    {
        if addr < self.base || addr - self.base >= self.bytes.len() as u64 {
            assert forall|k: nat| !self@.terminated_at(addr as int, k) by {}
            return None;
        }
        let start: usize = (addr - self.base) as usize;
        let mut i: usize = start;
        while i < self.bytes.len()
            invariant
                start <= i <= self.bytes@.len(),
                start == addr - self.base,
                forall|j: int| start <= j < i ==> self.bytes@[j] != 0,
            decreases self.bytes@.len() - i,
        {
            if self.bytes[i] == 0 {
                let k: u64 = (i - start) as u64;
                proof {
                    assert forall|a: int| addr <= a < addr + k implies #[trigger] self@.byte(a)
                        != 0 by {
                        assert(self.bytes@[a - self.base] != 0);
                    }
                    self@.lemma_terminator_unique(addr as int, k as nat);
                }
                return Some(k);
            }
            i = i + 1;
        }
        assert forall|k: nat| !self@.terminated_at(addr as int, k) by {
            if self@.terminated_at(addr as int, k) {
                assert(self.bytes@[start + k] == 0);
            }
        }
        None
    }
}

} // verus!
