use flutter_shell::frame::{FrameSize, FrameSizeNegotiator, ResizeStatus};

#[test]
fn new_negotiator_wants_the_size_it_has() {
    let window = FrameSizeNegotiator::new(FrameSize::new(800, 600));
    assert_eq!(window.surface_size(), FrameSize { width: 800, height: 600 });
    assert_eq!(window.target_size(), FrameSize { width: 800, height: 600 });
    assert_eq!(window.status(), ResizeStatus::Done);
}

#[test]
fn any_frame_is_accepted_when_no_resize_is_pending() {
    let mut window = FrameSizeNegotiator::new(FrameSize::new(800, 600));
    assert!(window.on_frame_generated(FrameSize::new(1, 1)));
    assert!(window.on_frame_generated(FrameSize::new(0, 0)));
    assert_eq!(window.status(), ResizeStatus::Done);
    assert_eq!(window.surface_size(), FrameSize::new(800, 600));
}

#[test]
fn stale_frame_is_dropped_while_resize_is_pending() {
    let mut window = FrameSizeNegotiator::new(FrameSize::new(800, 600));
    window.request_resize(FrameSize::new(1024, 768));
    assert_eq!(window.status(), ResizeStatus::ResizeStarted);
    assert_eq!(window.target_size(), FrameSize::new(1024, 768));
    assert_eq!(window.surface_size(), FrameSize::new(800, 600));
    let before = window;
    assert!(!window.on_frame_generated(FrameSize::new(800, 600)));
    assert_eq!(window, before);
    assert!(!window.on_frame_generated(FrameSize::new(1024, 767)));
    assert_eq!(window, before);
}

#[test]
fn frame_of_wanted_size_carries_out_the_resize() {
    let mut window = FrameSizeNegotiator::new(FrameSize::new(800, 600));
    window.request_resize(FrameSize::new(1024, 768));
    assert!(window.on_frame_generated(FrameSize::new(1024, 768)));
    assert_eq!(window.status(), ResizeStatus::FrameGenerated);
    assert_eq!(window.surface_size(), FrameSize::new(1024, 768));
    window.on_frame_presented();
    assert_eq!(window.status(), ResizeStatus::Done);
    assert_eq!(window.surface_size(), FrameSize::new(1024, 768));
    assert_eq!(window.target_size(), FrameSize::new(1024, 768));
}

#[test]
fn presented_without_pending_frame_changes_nothing() {
    let mut window = FrameSizeNegotiator::new(FrameSize::new(800, 600));
    window.on_frame_presented();
    assert_eq!(window.status(), ResizeStatus::Done);
    window.request_resize(FrameSize::new(10, 10));
    window.on_frame_presented();
    assert_eq!(window.status(), ResizeStatus::ResizeStarted);
}

#[test]
fn empty_frame_carries_out_a_pending_resize() {
    let mut window = FrameSizeNegotiator::new(FrameSize::new(800, 600));
    assert!(window.on_empty_frame_generated());
    assert_eq!(window.status(), ResizeStatus::Done);
    window.request_resize(FrameSize::new(640, 480));
    assert!(window.on_empty_frame_generated());
    assert_eq!(window.status(), ResizeStatus::FrameGenerated);
    assert_eq!(window.surface_size(), FrameSize::new(640, 480));
}

#[test]
fn resize_to_an_empty_size_rejects_every_frame() {
    let mut window = FrameSizeNegotiator::new(FrameSize::new(800, 600));
    window.request_resize(FrameSize::new(0, 480));
    let before = window;
    assert!(!window.on_empty_frame_generated());
    assert!(!window.on_frame_generated(FrameSize::new(0, 480)));
    assert_eq!(window, before);
}

#[test]
fn later_resize_request_replaces_the_earlier() {
    let mut window = FrameSizeNegotiator::new(FrameSize::new(800, 600));
    window.request_resize(FrameSize::new(1024, 768));
    window.request_resize(FrameSize::new(1280, 720));
    assert!(!window.on_frame_generated(FrameSize::new(1024, 768)));
    assert!(window.on_frame_generated(FrameSize::new(1280, 720)));
}

#[test]
fn frame_size_is_drawable_when_both_dimensions_are_positive() {
    assert!(FrameSize::new(1, 1).drawable());
    assert!(!FrameSize::new(0, 1).drawable());
    assert!(!FrameSize::new(1, 0).drawable());
}
