//! The memory-map feature.
use vstd::prelude::*;
use crate::memory::{ForeignMemory, MemoryImage};
use crate::requests::{LimineRequest, RequestRecord};
use crate::util::{ForeignRecord, PointerSlice};

verus! {

/// The magic pair of the memory-map feature.
pub const MEMORY_MAP_MAGIC: [u64; 2] = [0x67cf3d9d378a806f, 0xe304acdfc50c3c62];

/// Asks for the map of physical memory.
#[derive(Clone, Copy, Debug, PartialEq, Eq)]
pub struct MemoryMapRequest {
    record: RequestRecord,
}

impl MemoryMapRequest {
    /// A request for revision `revision`, without a response.
    pub fn new(revision: u64) -> (request: Self)
        ensures
            request.record().id.identifies(MEMORY_MAP_MAGIC[0], MEMORY_MAP_MAGIC[1]),
            request.record().revision == revision,
            !request.record().is_populated(),
    {
        MemoryMapRequest { record: RequestRecord::new(MEMORY_MAP_MAGIC, revision) }
    }
}

impl LimineRequest for MemoryMapRequest {
    type Response = MemoryMapResponse;

    closed spec fn record(&self) -> RequestRecord {
        self.record
    }

    fn header(&self) -> (record: RequestRecord) {
        self.record
    }

    fn respond(&mut self, address: u64) -> (accepted: bool) {
        self.record.respond(address)
    }

    fn get_response(&self, mem: &ForeignMemory) -> (found: Option<MemoryMapResponse>) {
        self.record.response(mem)
    }
}

/// The bootloader's answer: 24 bytes, the revision, the number of regions,
/// and the address of an array with the address of each region's entry.
#[derive(Clone, Copy, Debug, PartialEq, Eq)]
pub struct MemoryMapResponse {
    /// The revision of the response.
    pub revision: u64,
    /// The number of entries.
    pub entry_count: u64,
    /// The address of the array of entry addresses.
    pub entries: u64,
}

impl ForeignRecord for MemoryMapResponse {
    open spec fn size() -> nat {
        24
    }

    open spec fn decoded(mem: MemoryImage, addr: int) -> Self {
        MemoryMapResponse {
            revision: mem.u64_at(addr),
            entry_count: mem.u64_at(addr + 8),
            entries: mem.u64_at(addr + 16),
        }
    }

    fn byte_size() -> (n: u64) {
        24
    }

    fn read(mem: &ForeignMemory, addr: u64) -> (record: Self) {
        proof {
            use_type_invariant(mem);
        }
        MemoryMapResponse {
            revision: mem.read_u64(addr),
            entry_count: mem.read_u64(addr + 8),
            entries: mem.read_u64(addr + 16),
        }
    }
}

impl MemoryMapResponse {
    /// The entries of the map: `entry_count` slots from `entries` on.
    pub fn get_entries(&self) -> (entries: PointerSlice<MemoryRegionInfo>)
        ensures
            entries.spec_base() == self.entries,
            entries.spec_len() == self.entry_count,
    {
        PointerSlice::new(self.entries, self.entry_count)
    }
}

/// One region of physical memory: 24 bytes, its first address, its length in
/// bytes, and the code of its kind.
#[derive(Clone, Copy, Debug, PartialEq, Eq)]
pub struct MemoryRegionInfo {
    /// The first address of the region.
    pub base: u64,
    /// The length of the region in bytes.
    pub length: u64,
    /// The code of the region's kind, as the bootloader wrote it.
    pub region_type: u64,
}

impl ForeignRecord for MemoryRegionInfo {
    open spec fn size() -> nat {
        24
    }

    open spec fn decoded(mem: MemoryImage, addr: int) -> Self {
        MemoryRegionInfo {
            base: mem.u64_at(addr),
            length: mem.u64_at(addr + 8),
            region_type: mem.u64_at(addr + 16),
        }
    }

    fn byte_size() -> (n: u64) {
        24
    }

    fn read(mem: &ForeignMemory, addr: u64) -> (record: Self) {
        proof {
            use_type_invariant(mem);
        }
        MemoryRegionInfo {
            base: mem.read_u64(addr),
            length: mem.read_u64(addr + 8),
            region_type: mem.read_u64(addr + 16),
        }
    }
}

impl MemoryRegionInfo {
    /// The kind of the region, or the code itself where it names no kind.
    pub fn get_type(&self) -> (kind: Result<MemoryRegionType, InvalidRegionType>)
        ensures
            kind == MemoryRegionType::decoding(self.region_type),
    {
        MemoryRegionType::from(self.region_type)
    }
}

/// What a region of physical memory is used for.
#[derive(Clone, Copy, Debug, PartialEq, Eq, Structural)]
pub enum MemoryRegionType {
    Usable,
    Reserved,
    AcpiReclaimable,
    AcpiNvs,
    BadMemory,
    BootloaderReclaimable,
    ExecutableAndModules,
    Framebuffer,
    AcpiTables,
}

/// A region-type code that names no kind of region.
#[derive(Clone, Copy, Debug, PartialEq, Eq, Structural)]
pub struct InvalidRegionType {
    /// The code as it was found.
    pub code: u64,
}

impl MemoryRegionType {
    /// The kind that `code` names, if it names one.
    pub open spec fn of_code(code: u64) -> Option<MemoryRegionType> {
        if code == 0 {
            Some(MemoryRegionType::Usable)
        } else if code == 1 {
            Some(MemoryRegionType::Reserved)
        } else if code == 2 {
            Some(MemoryRegionType::AcpiReclaimable)
        } else if code == 3 {
            Some(MemoryRegionType::AcpiNvs)
        } else if code == 4 {
            Some(MemoryRegionType::BadMemory)
        } else if code == 5 {
            Some(MemoryRegionType::BootloaderReclaimable)
        } else if code == 6 {
            Some(MemoryRegionType::ExecutableAndModules)
        } else if code == 7 {
            Some(MemoryRegionType::Framebuffer)
        } else if code == 8 {
            Some(MemoryRegionType::AcpiTables)
        } else {
            None
        }
    }

    /// The code that names the kind.
    pub open spec fn spec_code(self) -> u64 {
        match self {
            MemoryRegionType::Usable => 0,
            MemoryRegionType::Reserved => 1,
            MemoryRegionType::AcpiReclaimable => 2,
            MemoryRegionType::AcpiNvs => 3,
            MemoryRegionType::BadMemory => 4,
            MemoryRegionType::BootloaderReclaimable => 5,
            MemoryRegionType::ExecutableAndModules => 6,
            MemoryRegionType::Framebuffer => 7,
            MemoryRegionType::AcpiTables => 8,
        }
    }

    /// What decoding `code` gives: the kind it names, or the code itself as
    /// an error.
    pub open spec fn decoding(code: u64) -> Result<MemoryRegionType, InvalidRegionType> {
        match Self::of_code(code) {
            Some(kind) => Ok(kind),
            None => Err(InvalidRegionType { code }),
        }
    }

    /// Decodes a region-type code. The codes 0 to 8 name the nine kinds in
    /// the order of their declaration; every other code is an error.
    pub fn from(value: u64) -> (kind: Result<MemoryRegionType, InvalidRegionType>)
        ensures
            kind == Self::decoding(value),
    {
        match value {
            0 => Ok(MemoryRegionType::Usable),
            1 => Ok(MemoryRegionType::Reserved),
            2 => Ok(MemoryRegionType::AcpiReclaimable),
            3 => Ok(MemoryRegionType::AcpiNvs),
            4 => Ok(MemoryRegionType::BadMemory),
            5 => Ok(MemoryRegionType::BootloaderReclaimable),
            6 => Ok(MemoryRegionType::ExecutableAndModules),
            7 => Ok(MemoryRegionType::Framebuffer),
            8 => Ok(MemoryRegionType::AcpiTables),
            _ => Err(InvalidRegionType { code: value }),
        }
    }

    /// The code that names the kind.
    #[verifier::when_used_as_spec(spec_code)]
    pub fn code(self) -> (code: u64)
        ensures
            code == self.spec_code(),
    {
        match self {
            MemoryRegionType::Usable => 0,
            MemoryRegionType::Reserved => 1,
            MemoryRegionType::AcpiReclaimable => 2,
            MemoryRegionType::AcpiNvs => 3,
            MemoryRegionType::BadMemory => 4,
            MemoryRegionType::BootloaderReclaimable => 5,
            MemoryRegionType::ExecutableAndModules => 6,
            MemoryRegionType::Framebuffer => 7,
            MemoryRegionType::AcpiTables => 8,
        }
    }
}

/// Decoding is defined on every code: exactly the codes 0 to 8 name a kind,
/// each its own, and every code from 9 on is an error that carries the code.
pub proof fn lemma_region_type_decoding(code: u64)
    ensures
        MemoryRegionType::decoding(code) is Ok <==> code <= 8,
        code <= 8 ==> MemoryRegionType::decoding(code) == Ok::<
            MemoryRegionType,
            InvalidRegionType,
        >(MemoryRegionType::of_code(code).unwrap()),
        code <= 8 ==> MemoryRegionType::of_code(code).unwrap().spec_code() == code,
        code >= 9 ==> MemoryRegionType::decoding(code) == Err::<
            MemoryRegionType,
            InvalidRegionType,
        >(InvalidRegionType { code }),
{
}

/// Every kind is named by one code, and decoding that code gives the kind
/// back.
pub proof fn lemma_region_type_code_round_trip(kind: MemoryRegionType)
    ensures
        kind.spec_code() <= 8,
        MemoryRegionType::of_code(kind.spec_code()) == Some(kind),
{
}

} // verus!
