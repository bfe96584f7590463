//! The date-at-boot feature.
use vstd::prelude::*;
use crate::memory::{ForeignMemory, MemoryImage};
use crate::requests::{LimineRequest, RequestRecord};
use crate::util::ForeignRecord;

verus! {

/// The magic pair of the date-at-boot feature.
pub const DATE_AT_BOOT_MAGIC: [u64; 2] = [0x502746e184c088aa, 0xfbc5ec83e6327893];

/// Asks for the time at which the machine was booted.
#[derive(Clone, Copy, Debug, PartialEq, Eq)]
pub struct DateAtBootRequest {
    record: RequestRecord,
}

impl DateAtBootRequest {
    /// A request for revision `revision`, without a response.
    pub fn new(revision: u64) -> (request: Self)
        ensures
            request.record().id.identifies(DATE_AT_BOOT_MAGIC[0], DATE_AT_BOOT_MAGIC[1]),
            request.record().revision == revision,
            !request.record().is_populated(),
    {
        DateAtBootRequest { record: RequestRecord::new(DATE_AT_BOOT_MAGIC, revision) }
    }
}

impl LimineRequest for DateAtBootRequest {
    type Response = DateAtBootResponse;

    closed spec fn record(&self) -> RequestRecord {
        self.record
    }

    fn header(&self) -> (record: RequestRecord) {
        self.record
    }

    fn respond(&mut self, address: u64) -> (accepted: bool) {
        self.record.respond(address)
    }

    fn get_response(&self, mem: &ForeignMemory) -> (found: Option<DateAtBootResponse>) {
        self.record.response(mem)
    }
}

/// The bootloader's answer: 16 bytes, the revision followed by the time.
#[derive(Clone, Copy, Debug, PartialEq, Eq)]
pub struct DateAtBootResponse {
    /// The revision of the response.
    pub revision: u64,
    /// The time of boot in seconds since the Unix epoch.
    pub timestamp: u64,
}

impl ForeignRecord for DateAtBootResponse {
    open spec fn size() -> nat {
        16
    }

    open spec fn decoded(mem: MemoryImage, addr: int) -> Self {
        DateAtBootResponse { revision: mem.u64_at(addr), timestamp: mem.u64_at(addr + 8) }
    }

    fn byte_size() -> (n: u64) {
        16
    }

    fn read(mem: &ForeignMemory, addr: u64) -> (record: Self) {
        proof {
            use_type_invariant(mem);
        }
        DateAtBootResponse { revision: mem.read_u64(addr), timestamp: mem.read_u64(addr + 8) }
    }
}

} // verus!
