use limine::memory::ForeignMemory;
use limine::requests::framebuffer::{
    Framebuffer, FramebufferRequest, FramebufferResponse, VideoMode,
};
use limine::requests::LimineRequest;
use limine::util::ForeignRecord;

const BASE: u64 = 0xffff_8000_0010_0000;

fn put(bytes: &mut Vec<u8>, at: usize, value: &[u8]) {
    bytes[at..at + value.len()].copy_from_slice(value);
}

/// One framebuffer with two video modes:
/// the response at 0, its slot at 24, the descriptor at 32, the two mode
/// slots at 112, the modes at 128 and 168.
fn display_fixture() -> Vec<u8> {
    let mut bytes = vec![0xeeu8; 208];
    put(&mut bytes, 0, &1u64.to_le_bytes());
    put(&mut bytes, 8, &1u64.to_le_bytes());
    put(&mut bytes, 16, &(BASE + 24).to_le_bytes());
    put(&mut bytes, 24, &(BASE + 32).to_le_bytes());
    let fb = 32;
    put(&mut bytes, fb, &0xffff_8000_fd00_0000u64.to_le_bytes());
    put(&mut bytes, fb + 8, &1920u64.to_le_bytes());
    put(&mut bytes, fb + 16, &1080u64.to_le_bytes());
    put(&mut bytes, fb + 24, &7680u64.to_le_bytes());
    put(&mut bytes, fb + 32, &32u16.to_le_bytes());
    put(&mut bytes, fb + 34, &[1, 8, 16, 8, 8, 8, 0]);
    put(&mut bytes, fb + 48, &128u64.to_le_bytes());
    put(&mut bytes, fb + 56, &0xffff_8000_0020_0000u64.to_le_bytes());
    put(&mut bytes, fb + 64, &2u64.to_le_bytes());
    put(&mut bytes, fb + 72, &(BASE + 112).to_le_bytes());
    put(&mut bytes, 112, &(BASE + 168).to_le_bytes());
    put(&mut bytes, 120, &(BASE + 128).to_le_bytes());
    let low = 128;
    put(&mut bytes, low, &2560u64.to_le_bytes());
    put(&mut bytes, low + 8, &640u64.to_le_bytes());
    put(&mut bytes, low + 16, &480u64.to_le_bytes());
    put(&mut bytes, low + 24, &0x0120u16.to_le_bytes());
    put(&mut bytes, low + 26, &[1, 5, 11, 6, 5, 5, 0]);
    let high = 168;
    put(&mut bytes, high, &7680u64.to_le_bytes());
    put(&mut bytes, high + 8, &1920u64.to_le_bytes());
    put(&mut bytes, high + 16, &1080u64.to_le_bytes());
    put(&mut bytes, high + 24, &32u16.to_le_bytes());
    put(&mut bytes, high + 26, &[1, 8, 16, 8, 8, 8, 0]);
    bytes
}

fn display_response(mem: &ForeignMemory) -> FramebufferResponse {
    let mut request = FramebufferRequest::new(1);
    assert!(request.respond(BASE));
    assert!(mem.contains(BASE, FramebufferResponse::byte_size()));
    request.get_response(mem).unwrap()
}

#[test]
fn framebuffer_response_points_to_its_descriptors() {
    let bytes = display_fixture();
    let mem = ForeignMemory::new(BASE, &bytes).unwrap();
    let response = display_response(&mem);
    assert_eq!(
        response,
        FramebufferResponse { revision: 1, framebuffer_count: 1, framebuffers: BASE + 24 }
    );
    let framebuffers = response.get_framebuffers();
    assert_eq!(framebuffers.len(), 1);
    assert_eq!(framebuffers.base(), BASE + 24);
    assert!(framebuffers.is_readable(&mem, 0));
    assert_eq!(framebuffers.get(&mem, 1), None);
}

#[test]
fn framebuffer_fields_lie_at_their_offsets() {
    let bytes = display_fixture();
    let mem = ForeignMemory::new(BASE, &bytes).unwrap();
    let framebuffers = display_response(&mem).get_framebuffers();
    assert_eq!(
        framebuffers.get(&mem, 0),
        Some(Framebuffer {
            address: 0xffff_8000_fd00_0000,
            width: 1920,
            height: 1080,
            pitch: 7680,
            bpp: 32,
            memory_model: 1,
            red_mask_size: 8,
            red_mask_shift: 16,
            green_mask_size: 8,
            green_mask_shift: 8,
            blue_mask_size: 8,
            blue_mask_shift: 0,
            edid_size: 128,
            edid_address: 0xffff_8000_0020_0000,
            video_mode_count: 2,
            video_modes: BASE + 112,
        })
    );
}

#[test]
fn video_modes_are_reached_through_their_slots() {
    let bytes = display_fixture();
    let mem = ForeignMemory::new(BASE, &bytes).unwrap();
    let framebuffer = display_response(&mem).get_framebuffers().get(&mem, 0).unwrap();
    let modes = framebuffer.get_video_mode();
    assert_eq!(modes.len(), 2);
    assert_eq!(modes.base(), BASE + 112);
    assert!(modes.is_readable(&mem, 0));
    assert!(modes.is_readable(&mem, 1));
    let high = VideoMode {
        pitch: 7680,
        width: 1920,
        height: 1080,
        bpp: 32,
        memory_model: 1,
        red_mask_size: 8,
        red_mask_shift: 16,
        green_mask_size: 8,
        green_mask_shift: 8,
        blue_mask_size: 8,
        blue_mask_shift: 0,
    };
    let low = VideoMode {
        pitch: 2560,
        width: 640,
        height: 480,
        bpp: 0x0120,
        memory_model: 1,
        red_mask_size: 5,
        red_mask_shift: 11,
        green_mask_size: 6,
        green_mask_shift: 5,
        blue_mask_size: 5,
        blue_mask_shift: 0,
    };
    assert_eq!(modes.get(&mem, 0), Some(high));
    assert_eq!(modes.get(&mem, 1), Some(low));
    assert_eq!(modes.get(&mem, 2), None);
    assert_eq!(modes.iter(&mem), vec![high, low]);
}

#[test]
fn record_sizes_follow_the_layout() {
    assert_eq!(FramebufferResponse::byte_size(), 24);
    assert_eq!(Framebuffer::byte_size(), 80);
    assert_eq!(VideoMode::byte_size(), 40);
}

#[test]
fn unused_bytes_do_not_reach_the_fields() {
    let bytes = display_fixture();
    let mem = ForeignMemory::new(BASE, &bytes).unwrap();
    let framebuffer = Framebuffer::read(&mem, BASE + 32);
    let mut other = vec![0x11u8; 208];
    other[32..73].copy_from_slice(mem.bytes_at(BASE + 32, 41));
    other[80..112].copy_from_slice(mem.bytes_at(BASE + 80, 32));
    let other = ForeignMemory::new(BASE, &other).unwrap();
    assert_eq!(Framebuffer::read(&other, BASE + 32), framebuffer);
}
