//! The bootloader-info feature.
use vstd::prelude::*;
use vstd::string::StringSliceAdditionalSpecFns;
use vstd::utf8::valid_utf8;
use crate::memory::{ForeignMemory, MemoryImage};
use crate::requests::{LimineRequest, RequestRecord};
use crate::util::{read_c_str, text_at, ForeignRecord};

verus! {

/// The magic pair of the bootloader-info feature.
pub const BOOTLOADER_INFO_MAGIC: [u64; 2] = [0xf55038d8e2a1202f, 0x279426fcf5f59740];

/// Asks for the name and the version of the bootloader.
#[derive(Clone, Copy, Debug, PartialEq, Eq)]
pub struct BootloaderInfoRequest {
    record: RequestRecord,
}

impl BootloaderInfoRequest {
    /// A request for revision `revision`, without a response.
    pub fn new(revision: u64) -> (request: Self)
        ensures
            request.record().id.identifies(BOOTLOADER_INFO_MAGIC[0], BOOTLOADER_INFO_MAGIC[1]),
            request.record().revision == revision,
            !request.record().is_populated(),
    {
        BootloaderInfoRequest { record: RequestRecord::new(BOOTLOADER_INFO_MAGIC, revision) }
    }
}

impl LimineRequest for BootloaderInfoRequest {
    type Response = BootloaderInfoResponse;

    closed spec fn record(&self) -> RequestRecord {
        self.record
    }

    fn header(&self) -> (record: RequestRecord) {
        self.record
    }

    fn respond(&mut self, address: u64) -> (accepted: bool) {
        self.record.respond(address)
    }

    fn get_response(&self, mem: &ForeignMemory) -> (found: Option<BootloaderInfoResponse>) {
        self.record.response(mem)
    }
}

/// The bootloader's answer: 24 bytes, the revision followed by the addresses
/// of two zero-terminated byte strings.
#[derive(Clone, Copy, Debug, PartialEq, Eq)]
pub struct BootloaderInfoResponse {
    /// The revision of the response.
    pub revision: u64,
    /// The address of the bootloader's name.
    pub name: u64,
    /// The address of the bootloader's version.
    pub version: u64,
}

impl ForeignRecord for BootloaderInfoResponse {
    open spec fn size() -> nat {
        24
    }

    open spec fn decoded(mem: MemoryImage, addr: int) -> Self {
        BootloaderInfoResponse {
            revision: mem.u64_at(addr),
            name: mem.u64_at(addr + 8),
            version: mem.u64_at(addr + 16),
        }
    }

    fn byte_size() -> (n: u64) {
        24
    }

    fn read(mem: &ForeignMemory, addr: u64) -> (record: Self) {
        proof {
            use_type_invariant(mem);
        }
        BootloaderInfoResponse {
            revision: mem.read_u64(addr),
            name: mem.read_u64(addr + 8),
            version: mem.read_u64(addr + 16),
        }
    }
}

impl BootloaderInfoResponse {
    /// The name of the bootloader: the bytes from `name` up to the first zero
    /// byte, which `mem` must hold, read as text. Nothing when these bytes
    /// are not valid UTF-8.
    pub fn get_name<'a>(&self, mem: &ForeignMemory<'a>) -> (text: Option<&'a str>)
        requires
            mem@.has_terminator(self.name as int),
        ensures
            text is Some <==> valid_utf8(mem@.text_bytes(self.name as int)),
            text is Some ==> text.unwrap().spec_bytes() == mem@.text_bytes(self.name as int),
            text is Some ==> Some(text.unwrap()@) == text_at(mem@, self.name as int),
    {
        read_c_str(mem, self.name)
    }

    /// The version of the bootloader: the bytes from `version` up to the
    /// first zero byte, which `mem` must hold, read as text. Nothing when
    /// these bytes are not valid UTF-8.
    pub fn get_version<'a>(&self, mem: &ForeignMemory<'a>) -> (text: Option<&'a str>)
        requires
            mem@.has_terminator(self.version as int),
        ensures
            text is Some <==> valid_utf8(mem@.text_bytes(self.version as int)),
            text is Some ==> text.unwrap().spec_bytes() == mem@.text_bytes(self.version as int),
            text is Some ==> Some(text.unwrap()@) == text_at(mem@, self.version as int),
    {
        read_c_str(mem, self.version)
    }
}

} // verus!
