//! The higher-half direct map feature.
use vstd::prelude::*;
use crate::memory::{ForeignMemory, MemoryImage};
use crate::requests::{LimineRequest, RequestRecord};
use crate::util::ForeignRecord;

verus! {

/// The magic pair of the higher-half direct map feature.
pub const HHDM_MAGIC: [u64; 2] = [0x48dcf1cb8ad2b852, 0x63984e959a98244b];

/// Asks where the bootloader has mapped all of physical memory.
#[derive(Clone, Copy, Debug, PartialEq, Eq)]
pub struct HigherHalfDirectMapRequest {
    record: RequestRecord,
}

impl HigherHalfDirectMapRequest {
    /// A request for revision `revision`, without a response.
    pub fn new(revision: u64) -> (request: Self)
        ensures
            request.record().id.identifies(HHDM_MAGIC[0], HHDM_MAGIC[1]),
            request.record().revision == revision,
            !request.record().is_populated(),
    {
        HigherHalfDirectMapRequest { record: RequestRecord::new(HHDM_MAGIC, revision) }
    }
}

impl LimineRequest for HigherHalfDirectMapRequest {
    type Response = HigherHalfDirectMapResponse;

    closed spec fn record(&self) -> RequestRecord {
        self.record
    }

    fn header(&self) -> (record: RequestRecord) {
        self.record
    }

    fn respond(&mut self, address: u64) -> (accepted: bool) {
        self.record.respond(address)
    }

    fn get_response(&self, mem: &ForeignMemory) -> (found: Option<HigherHalfDirectMapResponse>) {
        self.record.response(mem)
    }
}

/// The bootloader's answer: 16 bytes, the revision followed by the offset.
#[derive(Clone, Copy, Debug, PartialEq, Eq)]
pub struct HigherHalfDirectMapResponse {
    /// The revision of the response.
    pub revision: u64,
    /// What to add to a physical address to reach it through the direct map.
    pub offset: u64,
}

impl ForeignRecord for HigherHalfDirectMapResponse {
    open spec fn size() -> nat {
        16
    }

    open spec fn decoded(mem: MemoryImage, addr: int) -> Self {
        HigherHalfDirectMapResponse { revision: mem.u64_at(addr), offset: mem.u64_at(addr + 8) }
    }

    fn byte_size() -> (n: u64) {
        16
    }

    fn read(mem: &ForeignMemory, addr: u64) -> (record: Self) {
        proof {
            use_type_invariant(mem);
        }
        HigherHalfDirectMapResponse {
            revision: mem.read_u64(addr),
            offset: mem.read_u64(addr + 8),
        }
    }
}

} // verus!
