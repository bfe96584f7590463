//! The framebuffer feature.
use vstd::prelude::*;
use crate::memory::{ForeignMemory, MemoryImage};
use crate::requests::{LimineRequest, RequestRecord};
use crate::util::{ForeignRecord, PointerSlice};

verus! {

/// The magic pair of the framebuffer feature.
pub const FRAMEBUFFER_MAGIC: [u64; 2] = [0x9d5827dcd881dd75, 0xa3148604f6fab11b];

/// Asks for the framebuffers that the bootloader has set up.
#[derive(Clone, Copy, Debug, PartialEq, Eq)]
pub struct FramebufferRequest {
    record: RequestRecord,
}

impl FramebufferRequest {
    /// A request for revision `revision`, without a response.
    pub fn new(revision: u64) -> (request: Self)
        ensures
            request.record().id.identifies(FRAMEBUFFER_MAGIC[0], FRAMEBUFFER_MAGIC[1]),
            request.record().revision == revision,
            !request.record().is_populated(),
    {
        FramebufferRequest { record: RequestRecord::new(FRAMEBUFFER_MAGIC, revision) }
    }
}

impl LimineRequest for FramebufferRequest {
    type Response = FramebufferResponse;

    closed spec fn record(&self) -> RequestRecord {
        self.record
    }

    fn header(&self) -> (record: RequestRecord) {
        self.record
    }

    fn respond(&mut self, address: u64) -> (accepted: bool) {
        self.record.respond(address)
    }

    fn get_response(&self, mem: &ForeignMemory) -> (found: Option<FramebufferResponse>) {
        self.record.response(mem)
    }
}

/// The bootloader's answer: 24 bytes, the revision, the number of
/// framebuffers, and the address of an array with the address of each
/// framebuffer's descriptor.
#[derive(Clone, Copy, Debug, PartialEq, Eq)]
pub struct FramebufferResponse {
    /// The revision of the response.
    pub revision: u64,
    /// The number of framebuffers.
    pub framebuffer_count: u64,
    /// The address of the array of descriptor addresses.
    pub framebuffers: u64,
}

impl ForeignRecord for FramebufferResponse {
    open spec fn size() -> nat {
        24
    }

    open spec fn decoded(mem: MemoryImage, addr: int) -> Self {
        FramebufferResponse {
            revision: mem.u64_at(addr),
            framebuffer_count: mem.u64_at(addr + 8),
            framebuffers: mem.u64_at(addr + 16),
        }
    }

    fn byte_size() -> (n: u64) {
        24
    }

    fn read(mem: &ForeignMemory, addr: u64) -> (record: Self) {
        proof {
            use_type_invariant(mem);
        }
        FramebufferResponse {
            revision: mem.read_u64(addr),
            framebuffer_count: mem.read_u64(addr + 8),
            framebuffers: mem.read_u64(addr + 16),
        }
    }
}

impl FramebufferResponse {
    /// The framebuffers: `framebuffer_count` slots from `framebuffers` on.
    pub fn get_framebuffers(&self) -> (framebuffers: PointerSlice<Framebuffer>)
        ensures
            framebuffers.spec_base() == self.framebuffers,
            framebuffers.spec_len() == self.framebuffer_count,
    {
        PointerSlice::new(self.framebuffers, self.framebuffer_count)
    }
}

/// The descriptor of one framebuffer, 80 bytes in memory. The three 64-bit
/// fields of the geometry come first, the small fields follow from offset 32
/// on without gaps, seven unused bytes fill the word, and the remaining
/// 64-bit fields start at offset 48.
///
/// The last two fields exist from revision 1 of the response on. In a
/// response of revision 0 the bytes at their place mean nothing.
#[derive(Clone, Copy, Debug, PartialEq, Eq)]
pub struct Framebuffer {
    /// The address of the first pixel.
    pub address: u64,
    /// The width in pixels.
    pub width: u64,
    /// The height in pixels.
    pub height: u64,
    /// The number of bytes from one row to the next.
    pub pitch: u64,
    /// The number of bits per pixel.
    pub bpp: u16,
    /// The memory model of the pixels.
    pub memory_model: u8,
    pub red_mask_size: u8,
    pub red_mask_shift: u8,
    pub green_mask_size: u8,
    pub green_mask_shift: u8,
    pub blue_mask_size: u8,
    pub blue_mask_shift: u8,
    /// The size of the EDID blob in bytes, zero where there is none.
    pub edid_size: u64,
    /// The address of the EDID blob.
    pub edid_address: u64,
    /// The number of video modes.
    pub video_mode_count: u64,
    /// The address of the array of video-mode addresses.
    pub video_modes: u64,
}

impl ForeignRecord for Framebuffer {
    open spec fn size() -> nat {
        80
    }

    open spec fn decoded(mem: MemoryImage, addr: int) -> Self {
        Framebuffer {
            address: mem.u64_at(addr),
            width: mem.u64_at(addr + 8),
            height: mem.u64_at(addr + 16),
            pitch: mem.u64_at(addr + 24),
            bpp: mem.u16_at(addr + 32),
            memory_model: mem.byte(addr + 34),
            red_mask_size: mem.byte(addr + 35),
            red_mask_shift: mem.byte(addr + 36),
            green_mask_size: mem.byte(addr + 37),
            green_mask_shift: mem.byte(addr + 38),
            blue_mask_size: mem.byte(addr + 39),
            blue_mask_shift: mem.byte(addr + 40),
            edid_size: mem.u64_at(addr + 48),
            edid_address: mem.u64_at(addr + 56),
            video_mode_count: mem.u64_at(addr + 64),
            video_modes: mem.u64_at(addr + 72),
        }
    }

    fn byte_size() -> (n: u64) {
        80
    }

    fn read(mem: &ForeignMemory, addr: u64) -> (record: Self) {
        proof {
            use_type_invariant(mem);
        }
        Framebuffer {
            address: mem.read_u64(addr),
            width: mem.read_u64(addr + 8),
            height: mem.read_u64(addr + 16),
            pitch: mem.read_u64(addr + 24),
            bpp: mem.read_u16(addr + 32),
            memory_model: mem.read_u8(addr + 34),
            red_mask_size: mem.read_u8(addr + 35),
            red_mask_shift: mem.read_u8(addr + 36),
            green_mask_size: mem.read_u8(addr + 37),
            green_mask_shift: mem.read_u8(addr + 38),
            blue_mask_size: mem.read_u8(addr + 39),
            blue_mask_shift: mem.read_u8(addr + 40),
            edid_size: mem.read_u64(addr + 48),
            edid_address: mem.read_u64(addr + 56),
            video_mode_count: mem.read_u64(addr + 64),
            video_modes: mem.read_u64(addr + 72),
        }
    }
}

impl Framebuffer {
    /// The video modes of the framebuffer: `video_mode_count` slots from
    /// `video_modes` on.
    ///
    /// The protocol defines the two fields from revision 1 of the response
    /// on. With a response of revision 0 the view is made of whatever the
    /// bytes at their place hold, and the protocol says nothing of it.
    pub fn get_video_mode(&self) -> (modes: PointerSlice<VideoMode>)
        ensures
            modes.spec_base() == self.video_modes,
            modes.spec_len() == self.video_mode_count,
    {
        PointerSlice::new(self.video_modes, self.video_mode_count)
    }
}

/// One video mode of a framebuffer, 40 bytes in memory: three 64-bit fields,
/// the small fields from offset 24 on without gaps, and seven unused bytes.
#[derive(Clone, Copy, Debug, PartialEq, Eq)]
pub struct VideoMode {
    /// The number of bytes from one row to the next.
    pub pitch: u64,
    /// The width in pixels.
    pub width: u64,
    /// The height in pixels.
    pub height: u64,
    /// The number of bits per pixel.
    pub bpp: u16,
    /// The memory model of the pixels.
    pub memory_model: u8,
    pub red_mask_size: u8,
    pub red_mask_shift: u8,
    pub green_mask_size: u8,
    pub green_mask_shift: u8,
    pub blue_mask_size: u8,
    pub blue_mask_shift: u8,
}

impl ForeignRecord for VideoMode {
    open spec fn size() -> nat {
        40
    }

    open spec fn decoded(mem: MemoryImage, addr: int) -> Self {
        VideoMode {
            pitch: mem.u64_at(addr),
            width: mem.u64_at(addr + 8),
            height: mem.u64_at(addr + 16),
            bpp: mem.u16_at(addr + 24),
            memory_model: mem.byte(addr + 26),
            red_mask_size: mem.byte(addr + 27),
            red_mask_shift: mem.byte(addr + 28),
            green_mask_size: mem.byte(addr + 29),
            green_mask_shift: mem.byte(addr + 30),
            blue_mask_size: mem.byte(addr + 31),
            blue_mask_shift: mem.byte(addr + 32),
        }
    }

    fn byte_size() -> (n: u64) {
        40
    }

    fn read(mem: &ForeignMemory, addr: u64) -> (record: Self) {
        proof {
            use_type_invariant(mem);
        }
        VideoMode {
            pitch: mem.read_u64(addr),
            width: mem.read_u64(addr + 8),
            height: mem.read_u64(addr + 16),
            bpp: mem.read_u16(addr + 24),
            memory_model: mem.read_u8(addr + 26),
            red_mask_size: mem.read_u8(addr + 27),
            red_mask_shift: mem.read_u8(addr + 28),
            green_mask_size: mem.read_u8(addr + 29),
            green_mask_shift: mem.read_u8(addr + 30),
            blue_mask_size: mem.read_u8(addr + 31),
            blue_mask_shift: mem.read_u8(addr + 32),
        }
    }
}

} // verus!
