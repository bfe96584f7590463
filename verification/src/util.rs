//! Typed views of bootloader-owned memory: fixed-layout records, arrays of
//! addresses of records, and zero-terminated text.
use core::marker::PhantomData;
use vstd::prelude::*;
use vstd::string::StringSliceAdditionalSpecFns;
use vstd::utf8::{
    decode_utf8, decode_utf8_encode_utf8, encode_utf8, encode_utf8_decode_utf8, valid_utf8,
};
use crate::memory::{ForeignMemory, MemoryImage};

verus! {

/// A record with a fixed layout that the bootloader leaves in memory.
pub trait ForeignRecord: Sized {
    /// The number of bytes that the record occupies.
    spec fn size() -> nat;

    /// The record that `mem` holds at `addr`.
    spec fn decoded(mem: MemoryImage, addr: int) -> Self;

    /// The number of bytes that the record occupies.
    fn byte_size() -> (n: u64)
        ensures
            n == Self::size(),
    ;

    /// Decodes the record at `addr`. The window must hold all of its bytes.
    fn read(mem: &ForeignMemory, addr: u64) -> (record: Self)
        requires
            mem@.maps(addr as int, Self::size() as int),
        ensures
            record == Self::decoded(mem@, addr as int),
    ;
}

/// An array of `count` addresses that starts at `base`; each address is that
/// of one record of type `T`. Nothing is read until an element is asked for.
pub struct PointerSlice<T> {
    base: u64,
    count: u64,
    element: PhantomData<T>,
}

impl<T: ForeignRecord> PointerSlice<T> {
    /// The address of the first slot of the array.
    pub closed spec fn spec_base(&self) -> u64 {
        self.base
    }

    /// The number of slots.
    pub closed spec fn spec_len(&self) -> u64 {
        self.count
    }

    /// The address of slot `i`.
    pub open spec fn slot(&self, i: int) -> int {
        self.spec_base() + 8 * i
    }

    /// The address stored in slot `i`.
    pub open spec fn pointer(&self, mem: MemoryImage, i: int) -> u64 {
        mem.u64_at(self.slot(i))
    }

    /// True when `mem` holds slot `i` and all of the record it points to.
    pub open spec fn readable(&self, mem: MemoryImage, i: int) -> bool {
        &&& mem.maps(self.slot(i), 8)
        &&& mem.maps(self.pointer(mem, i) as int, T::size() as int)
    }

    /// True when every element can be read from `mem`.
    pub open spec fn all_readable(&self, mem: MemoryImage) -> bool {
        forall|i: int| 0 <= i < self.spec_len() ==> self.readable(mem, i)
    }

    /// The record that slot `i` points to.
    pub open spec fn element(&self, mem: MemoryImage, i: int) -> T {
        T::decoded(mem, self.pointer(mem, i) as int)
    }

    /// All records in the order of their slots.
    pub open spec fn elements(&self, mem: MemoryImage) -> Seq<T> {
        Seq::new(self.spec_len() as nat, |i: int| self.element(mem, i))
    }

    /// The view of the `count` slots that start at `base`.
    pub fn new(base: u64, count: u64) -> (slice: Self)
        ensures
            slice.spec_base() == base,
            slice.spec_len() == count,
    {
        PointerSlice { base, count, element: PhantomData }
    }

    /// The address of the first slot.
    #[verifier::when_used_as_spec(spec_base)]
    pub fn base(&self) -> (base: u64)
        ensures
            base == self.spec_base(),
    {
        self.base
    }

    /// The number of slots.
    #[verifier::when_used_as_spec(spec_len)]
    pub fn len(&self) -> (count: u64)
        ensures
            count == self.spec_len(),
    {
        self.count
    }

    /// Tells whether `index` is in bounds and `mem` holds both its slot and
    /// the record that the slot points to.
    pub fn is_readable(&self, mem: &ForeignMemory, index: usize) -> (ok: bool)
        ensures
            ok == (index < self.spec_len() && self.readable(mem@, index as int)),
    {
        proof {
            use_type_invariant(mem);
        }
        if index as u64 >= self.count || index as u64 > (u64::MAX - self.base) / 8 {
            return false;
        }
        let slot: u64 = self.base + 8 * (index as u64);
        if !mem.contains(slot, 8) {
            return false;
        }
        let pointer: u64 = mem.read_u64(slot);
        mem.contains(pointer, T::byte_size())
    }

    /// The record at `index`, or nothing when `index` is out of bounds.
    /// For an index in bounds, `mem` must hold the slot and the record.
    pub fn get(&self, mem: &ForeignMemory, index: usize) -> (found: Option<T>)
        requires
            index < self.spec_len() ==> self.readable(mem@, index as int),
        ensures
            index < self.spec_len() ==> found == Some(self.element(mem@, index as int)),
            index >= self.spec_len() ==> found is None,
    {
        if index as u64 >= self.count {
            return None;
        }
        proof {
            use_type_invariant(mem);
        }
        let slot: u64 = self.base + 8 * (index as u64);
        let pointer: u64 = mem.read_u64(slot);
        Some(T::read(mem, pointer))
    }

    /// All records, in the order of their slots. `mem` must hold every slot
    /// and every record.
    pub fn iter(&self, mem: &ForeignMemory) -> (all: Vec<T>)
        requires
            self.all_readable(mem@),
        ensures
            all@ == self.elements(mem@),
    {
        let mut all: Vec<T> = Vec::new();
        let mut i: u64 = 0;
        while i < self.count
            invariant
                i <= self.count,
                self.all_readable(mem@),
                all@.len() == i,
                forall|j: int| 0 <= j < i ==> all@[j] == self.element(mem@, j),
            decreases self.count - i,
        {
            proof {
                use_type_invariant(mem);
                assert(self.readable(mem@, i as int));
            }
            let pointer: u64 = mem.read_u64(self.base + 8 * i);
            all.push(T::read(mem, pointer));
            i = i + 1;
        }
        assert(all@ =~= self.elements(mem@));
        all
    }
}

/// `core::str::from_utf8` accepts exactly the byte sequences that are valid
/// UTF-8, and the text it returns consists of the very bytes it was given.
#[verifier::external_body]
fn str_from_utf8<'a>(bytes: &'a [u8]) -> (text: Option<&'a str>)
    ensures
        text is Some <==> valid_utf8(bytes@),
        text is Some ==> text.unwrap().spec_bytes() == bytes@,
{
    match core::str::from_utf8(bytes) {
        Ok(text) => Some(text),
        Err(_) => None,
    }
}

/// The text to which the zero-terminated byte string at `addr` decodes, if it
/// decodes at all.
pub open spec fn text_at(mem: MemoryImage, addr: int) -> Option<Seq<char>> {
    if valid_utf8(mem.text_bytes(addr)) {
        Some(decode_utf8(mem.text_bytes(addr)))
    } else {
        None
    }
}

/// A byte string that is valid UTF-8 up to the zero byte at offset `k` decodes
/// to a text of exactly `k` bytes, the bytes before the zero.
pub proof fn lemma_text_of_terminated(mem: MemoryImage, addr: int, k: nat)
    requires
        mem.terminated_at(addr, k),
        valid_utf8(mem.run(addr, k as int)),
    ensures
        text_at(mem, addr) == Some(decode_utf8(mem.run(addr, k as int))),
        encode_utf8(text_at(mem, addr).unwrap()) == mem.run(addr, k as int),
        encode_utf8(text_at(mem, addr).unwrap()).len() == k,
{
    mem.lemma_terminator_unique(addr, k);
    decode_utf8_encode_utf8(mem.run(addr, k as int));
}

/// Reads the zero-terminated byte string at `addr` as text. The string ends
/// at the first zero byte, which `mem` must hold. The result is nothing when
/// the bytes before the zero are not valid UTF-8.
pub fn read_c_str<'a>(mem: &ForeignMemory<'a>, addr: u64) -> (text: Option<&'a str>)
    requires
        mem@.has_terminator(addr as int),
    ensures
        text is Some <==> valid_utf8(mem@.text_bytes(addr as int)),
        text is Some ==> text.unwrap().spec_bytes() == mem@.text_bytes(addr as int),
        text is Some ==> text.unwrap().spec_bytes().len() == mem@.text_len(addr as int),
        text is Some ==> Some(text.unwrap()@) == text_at(mem@, addr as int),
        text is None ==> text_at(mem@, addr as int) is None,
{
    let len: u64 = match mem.terminator(addr) {
        Some(len) => len,
        None => 0,
    };
    proof {
        mem@.lemma_terminator_unique(addr as int, mem@.text_len(addr as int));
    }
    let text = str_from_utf8(mem.bytes_at(addr, len));
    proof {
        if text is Some {
            encode_utf8_decode_utf8(text.unwrap()@);
        }
    }
    text
}

} // verus!
