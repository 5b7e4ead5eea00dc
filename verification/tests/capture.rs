use wgc_snapshot::device::{remap_after_unmap, GraphicsDevice};
use wgc_snapshot::encoder::surface_to_rgba;
use wgc_snapshot::errors::CaptureError;
use wgc_snapshot::repack::{bgra_to_rgba, repack_rows};
use wgc_snapshot::resolver::CaptureTarget;
use wgc_snapshot::session::{CaptureSession, SessionPhase, SubscriptionState, TargetSize};
use wgc_snapshot::snapshot::CaptureSnapshot;
use wgc_snapshot::texture::{
    GpuTexture, RawPixelBuffer, TextureDescriptor, TextureUsage, BGRA8_UNORM,
};

fn frame(width: u32, height: u32, pitch: usize, fill: u8) -> GpuTexture {
    GpuTexture {
        desc: TextureDescriptor {
            width,
            height,
            format: BGRA8_UNORM,
            usage: TextureUsage::Default,
            bind_flags: 0x28,
            cpu_read: false,
        },
        row_pitch: pitch,
        data: vec![fill; pitch * height as usize],
        mapped: false,
    }
}

fn new_device() -> GraphicsDevice {
    GraphicsDevice::create(true).unwrap()
}

#[test]
fn device_creation_fails_without_adapter() {
    let r = GraphicsDevice::create(false);
    assert!(matches!(r, Err(CaptureError::DeviceCreation)));
}

#[test]
fn take_returns_surface_of_target_size() {
    let mut device = new_device();
    let target = CaptureTarget::Display(7);
    let size = TargetSize { width: 1920, height: 1080 };
    let shots = vec![Some(frame(1920, 1080, 1920 * 4, 0xAB))];
    let surface = CaptureSnapshot::take(&mut device, &target, size, shots, 1920 * 4).unwrap();
    assert_eq!(surface.texture.desc.width, 1920);
    assert_eq!(surface.texture.desc.height, 1080);
    assert!(matches!(surface.texture.desc.usage, TextureUsage::Staging));
    assert!(surface.texture.desc.cpu_read);
    assert_eq!(device.allocations, 1);
}

#[test]
fn take_tolerates_spurious_empty_notifications() {
    let mut device = new_device();
    let target = CaptureTarget::Window(3);
    let size = TargetSize { width: 8, height: 4 };
    let shots = vec![None, None, Some(frame(8, 4, 32, 0x10)), Some(frame(8, 4, 32, 0x99))];
    let surface = CaptureSnapshot::take(&mut device, &target, size, shots, 32).unwrap();
    // Only the first meaningful frame contributes.
    assert!(surface.texture.data.iter().take(32 * 4).all(|&b| b == 0x10));
    assert_eq!(device.allocations, 1);
}

#[test]
fn take_times_out_when_no_frame_arrives() {
    let mut device = new_device();
    let target = CaptureTarget::Display(1);
    let size = TargetSize { width: 8, height: 4 };
    let r = CaptureSnapshot::take(&mut device, &target, size, vec![None, None], 32);
    assert!(matches!(r, Err(CaptureError::CaptureTimeout)));
    assert_eq!(device.allocations, 0);
}

#[test]
fn take_forwards_allocation_failure_instead_of_hanging() {
    let mut device = new_device();
    device.inject_alloc_failures(1);
    let target = CaptureTarget::Display(1);
    let size = TargetSize { width: 8, height: 4 };
    let shots = vec![Some(frame(8, 4, 32, 0x55))];
    let r = CaptureSnapshot::take(&mut device, &target, size, shots, 32);
    assert!(matches!(r, Err(CaptureError::ResourceAllocation)));
    assert_eq!(device.allocations, 0);
}

#[test]
fn session_closes_pool_and_subscription_before_signalling() {
    let mut device = new_device();
    let mut session = CaptureSession::arm(
        CaptureTarget::Display(1),
        TargetSize { width: 4, height: 2 },
    );
    assert!(matches!(session.phase, SessionPhase::Armed));
    session.start_capture();
    assert!(matches!(session.subscription.state, SubscriptionState::Started));
    session.on_frame_arrived(&mut device, Some(frame(4, 2, 16, 1)), 16);
    // Closed before the waiter ever sees the value.
    assert!(matches!(session.subscription.state, SubscriptionState::Closed));
    assert!(session.pool.closed);
    assert!(session.signalled());
    let texture = session.receive().unwrap();
    assert!(matches!(session.phase, SessionPhase::Completed));
    assert_eq!(texture.desc.width, 4);
}

#[test]
fn notifications_after_close_are_unobservable() {
    let mut device = new_device();
    let mut session = CaptureSession::arm(
        CaptureTarget::Display(1),
        TargetSize { width: 4, height: 2 },
    );
    session.start_capture();
    session.on_frame_arrived(&mut device, Some(frame(4, 2, 16, 1)), 16);
    let allocations_before = device.allocations;
    // A late notification hits a closed subscription and changes nothing.
    session.on_frame_arrived(&mut device, Some(frame(4, 2, 16, 2)), 16);
    assert_eq!(device.allocations, allocations_before);
    let texture = session.receive().unwrap();
    assert!(texture.data.iter().take(16).all(|&b| b == 1));
}

#[test]
fn empty_pool_notification_keeps_waiting() {
    let mut device = new_device();
    let mut session = CaptureSession::arm(
        CaptureTarget::Display(1),
        TargetSize { width: 4, height: 2 },
    );
    session.start_capture();
    session.on_frame_arrived(&mut device, None, 16);
    assert!(!session.signalled());
    assert!(matches!(session.subscription.state, SubscriptionState::Started));
}

#[test]
fn copy_mismatch_is_refused() {
    let device = new_device();
    let src = frame(4, 2, 16, 7);
    let mut dst = frame(8, 2, 32, 0);
    let r = device.copy_resource(&mut dst, &src);
    assert!(matches!(r, Err(CaptureError::CopyMismatch)));
}

#[test]
fn copy_carries_the_visible_image() {
    let mut device = new_device();
    let mut src = frame(2, 2, 12, 0);
    src.data = vec![1, 2, 3, 4, 5, 6, 7, 8, 0, 0, 0, 0, 9, 10, 11, 12, 13, 14, 15, 16, 0, 0, 0, 0];
    let mut dst = device.create_staging_texture(&src, 8).unwrap();
    device.copy_resource(&mut dst, &src).unwrap();
    assert_eq!(dst.data, vec![1, 2, 3, 4, 5, 6, 7, 8, 9, 10, 11, 12, 13, 14, 15, 16]);
}

#[test]
fn map_unmap_map_unmap_all_succeed() {
    let mut device = new_device();
    let src = frame(2, 2, 8, 3);
    let mut staging = device.create_staging_texture(&src, 8).unwrap();
    let (first, second) = remap_after_unmap(&device, &mut staging);
    assert!(first.is_ok());
    assert!(second.is_ok());
    assert!(!staging.mapped);
    // And once more by hand.
    let buf = device.map_for_read(&mut staging).unwrap();
    assert_eq!(buf.bytes.len(), 16);
    device.unmap(&mut staging);
    assert!(device.map_for_read(&mut staging).is_ok());
}

#[test]
fn mapping_a_gpu_only_texture_is_refused() {
    let device = new_device();
    let mut tex = frame(2, 2, 8, 3);
    let r = device.map_for_read(&mut tex);
    assert!(matches!(r, Err(CaptureError::InvalidMapTarget)));
}

#[test]
fn mapping_twice_without_unmap_is_refused() {
    let mut device = new_device();
    let src = frame(2, 2, 8, 3);
    let mut staging = device.create_staging_texture(&src, 8).unwrap();
    device.map_for_read(&mut staging).unwrap();
    let r = device.map_for_read(&mut staging);
    assert!(matches!(r, Err(CaptureError::InvalidMapTarget)));
}

#[test]
fn repack_drops_row_padding() {
    // Two rows of width 1 (4 bytes each) at a pitch of 6: the padding
    // bytes 90 and 91 must not appear in the output.
    let buf = RawPixelBuffer {
        bytes: vec![1, 2, 3, 4, 90, 91, 5, 6, 7, 8, 92, 93],
        row_pitch: 6,
        width: 1,
        height: 2,
    };
    let packed = repack_rows(&buf);
    assert_eq!(packed, vec![1, 2, 3, 4, 5, 6, 7, 8]);
}

#[test]
fn repack_keeps_tight_rows_as_they_are() {
    let buf = RawPixelBuffer {
        bytes: vec![1, 2, 3, 4, 5, 6, 7, 8],
        row_pitch: 4,
        width: 1,
        height: 2,
    };
    assert_eq!(repack_rows(&buf), vec![1, 2, 3, 4, 5, 6, 7, 8]);
}

#[test]
fn swizzle_swaps_blue_and_red() {
    let bgra = vec![10, 20, 30, 40, 50, 60, 70, 80];
    let rgba = bgra_to_rgba(&bgra);
    assert_eq!(rgba, vec![30, 20, 10, 40, 70, 60, 50, 80]);
}

#[test]
fn encoder_round_trip_of_one_frame() {
    let mut device = new_device();
    let target = CaptureTarget::Display(7);
    let size = TargetSize { width: 2, height: 2 };
    // One 2x2 frame at a padded pitch of 12 bytes.
    let mut f = frame(2, 2, 12, 0);
    f.data = vec![
        1, 2, 3, 4, 5, 6, 7, 8, 0, 0, 0, 0, // row 0 + padding
        9, 10, 11, 12, 13, 14, 15, 16, 0, 0, 0, 0, // row 1 + padding
    ];
    let mut surface = CaptureSnapshot::take(&mut device, &target, size, vec![Some(f)], 16)
        .unwrap();
    let rgba = surface_to_rgba(&device, &mut surface).unwrap();
    assert!(!surface.texture.mapped);
    assert_eq!(
        rgba,
        vec![3, 2, 1, 4, 7, 6, 5, 8, 11, 10, 9, 12, 15, 14, 13, 16]
    );
    assert!(rgba.iter().any(|&b| b != 0));
}

#[test]
fn encoder_refuses_a_surface_it_cannot_map() {
    let device = new_device();
    let mut surface = wgc_snapshot::snapshot::PixelSurface { texture: frame(2, 2, 8, 1) };
    let r = surface_to_rgba(&device, &mut surface);
    assert!(matches!(r, Err(CaptureError::InvalidMapTarget)));
}
