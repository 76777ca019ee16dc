use yuxa::backend::{select_backend, BackendKind, DcBackend, ImageBackend, PresentCommand, ShmBackend};
use yuxa::pool::{DoublePool, PoolHalf};

// A fresh pool offers its first region; holding marks it; releasing frees it.
#[test]
fn pool_accounting() {
    let mut p = DoublePool::new();
    assert_eq!(p.acquire(), Some(PoolHalf::First));
    p.mark_held(PoolHalf::First);
    assert_eq!(p.acquire(), Some(PoolHalf::Second));
    p.mark_held(PoolHalf::Second);
    assert_eq!(p.acquire(), None);
    p.mark_released(PoolHalf::First);
    assert_eq!(p.acquire(), Some(PoolHalf::First));
}

// Across consecutive shared-memory presents the regions alternate: the
// region handed to the server by one call is never the one written by the
// next, and no frame is skipped.
#[test]
fn shm_presents_alternate_regions() {
    let mut b = ShmBackend::new(true);
    let buffer = [[0xFFu8, 0x10, 0x20, 0x30]; 4];
    let mut halves = Vec::new();
    for _ in 0..6 {
        match b.draw_argb8888((2, 2), &buffer) {
            Some(PresentCommand::SharedMemory { half, .. }) => halves.push(half),
            _ => panic!("present was skipped or took the wrong protocol"),
        }
    }
    for pair in halves.windows(2) {
        assert_ne!(pair[0], pair[1]);
    }
}

// The shared-memory command carries the full frame in declared byte order.
#[test]
fn shm_command_payload() {
    let mut b = ShmBackend::new(true);
    let buffer = [[0xFFu8, 0x12, 0x34, 0x56], [0x01, 0x02, 0x03, 0x04]];
    match b.draw_argb8888((2, 1), &buffer) {
        Some(PresentCommand::SharedMemory { half, width, height, bytes }) => {
            assert_eq!(half, PoolHalf::First);
            assert_eq!((width, height), (2, 1));
            assert_eq!(bytes, vec![0x56, 0x34, 0x12, 0xFF, 0x04, 0x03, 0x02, 0x01]);
        },
        _ => panic!("expected a shared-memory command"),
    }
}

// The direct-image backend overwrites its descriptor's declared dimensions
// on every present, so a resize between calls is honoured.
#[test]
fn image_descriptor_follows_dimensions() {
    let mut b = ImageBackend::new(3, 2);
    let buffer = [0x11223344u32; 6];
    match b.draw_argb32((3, 2), &buffer) {
        PresentCommand::DirectImage { width, height, stride_bytes, words } => {
            assert_eq!((width, height, stride_bytes), (3, 2, 12));
            assert_eq!(words, buffer.to_vec());
        },
        _ => panic!("expected a direct-image command"),
    }
    let larger = [0xAABBCCDDu32; 8];
    match b.draw_argb32((4, 2), &larger) {
        PresentCommand::DirectImage { width, height, stride_bytes, words } => {
            assert_eq!((width, height, stride_bytes), (4, 2, 16));
            assert_eq!(words.len(), 8);
        },
        _ => panic!("expected a direct-image command"),
    }
}

// The direct-image backend packs channel groups into words.
#[test]
fn image_packs_channel_groups() {
    let mut b = ImageBackend::new(1, 1);
    let buffer = [[0xFFu8, 0x12, 0x34, 0x56]];
    match b.draw_argb8888((1, 1), &buffer) {
        PresentCommand::DirectImage { words, .. } => assert_eq!(words, vec![0xFF123456]),
        _ => panic!("expected a direct-image command"),
    }
}

// The device-context backend emits a transient-bitmap transfer of the
// packed words and keeps no state between calls.
#[test]
fn device_context_command() {
    let mut b = DcBackend::new();
    let bytes = [0xFFu8, 0x12, 0x34, 0x56, 0xFF, 0x00, 0x00, 0x01];
    match b.draw_argb8888_bytes((2, 1), &bytes) {
        PresentCommand::DeviceContext { width, height, words } => {
            assert_eq!((width, height), (2, 1));
            assert_eq!(words, vec![0xFF123456, 0xFF000001]);
        },
        _ => panic!("expected a device-context command"),
    }
}

// The probing order: the shared-memory protocol wins when its handles are
// present, the direct-image protocol only otherwise, a bare device context
// last, and a handle with none of them selects no backend.
#[test]
fn selector_probing_order() {
    let probe = |wd: bool, ws: bool, xd: bool, xw: bool, dc: bool| yuxa::backend::HandleProbe {
        wayland_display: wd,
        wayland_surface: ws,
        xlib_display: xd,
        xlib_window: xw,
        device_context: dc,
    };
    assert_eq!(select_backend(&probe(true, true, true, true, true)), Some(BackendKind::SharedMemory));
    assert_eq!(select_backend(&probe(true, false, true, true, false)), Some(BackendKind::DirectImage));
    assert_eq!(select_backend(&probe(false, true, false, true, false)), None);
    assert_eq!(select_backend(&probe(false, false, true, true, false)), Some(BackendKind::DirectImage));
    assert_eq!(select_backend(&probe(false, false, false, false, true)), Some(BackendKind::DeviceContext));
    assert_eq!(select_backend(&probe(false, false, false, false, false)), None);
}
