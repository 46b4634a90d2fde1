use camstream::capture::apply_read;
use camstream::capture::capture_poll;
use camstream::capture::CaptureAction;
use camstream::frame::Frame;
use camstream::frame::FrameStore;

fn test_frame(byte: u8) -> Frame {
    Frame { width: 1, height: 1, pixels: vec![byte] }
}

#[test]
fn loop_reads_only_while_running_with_a_device() {
    assert!(matches!(capture_poll(true, true), CaptureAction::ReadFrame));
    assert!(matches!(capture_poll(false, true), CaptureAction::Exit));
    assert!(matches!(capture_poll(true, false), CaptureAction::Exit));
    assert!(matches!(capture_poll(false, false), CaptureAction::Exit));
}

#[test]
fn successful_read_replaces_the_latest_frame() {
    let mut store = FrameStore::new();
    assert!(store.snapshot().is_empty());
    let go_on = apply_read(&mut store, Some(test_frame(1)));
    assert!(go_on);
    assert_eq!(store.snapshot().pixels, vec![1]);
    let go_on = apply_read(&mut store, Some(test_frame(2)));
    assert!(go_on);
    // Latest wins: the previous frame is discarded.
    assert_eq!(store.snapshot().pixels, vec![2]);
}

#[test]
fn failed_read_exits_and_freezes_the_store() {
    let mut store = FrameStore::new();
    apply_read(&mut store, Some(test_frame(3)));
    // The device read fails: the loop exits; the store keeps the last
    // successfully captured frame.
    let go_on = apply_read(&mut store, None);
    assert!(!go_on);
    assert_eq!(store.snapshot().pixels, vec![3]);
    // Every later snapshot still sees the frozen frame.
    assert_eq!(store.snapshot().pixels, vec![3]);
}

#[test]
fn snapshots_are_independent_copies() {
    let mut store = FrameStore::new();
    apply_read(&mut store, Some(test_frame(4)));
    let mut snap = store.snapshot();
    snap.pixels[0] = 99;
    // Mutating a snapshot never touches the store's live instance.
    assert_eq!(store.snapshot().pixels, vec![4]);
}
