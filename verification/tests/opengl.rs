use flutter_shell::context::{ContextCall, GraphicsContext};
use flutter_shell::frame::{FrameSize, FrameSizeNegotiator, ResizeStatus};
use flutter_shell::opengl::SctkOpenGLHandler;

/// A context whose native layer answers as told, and that records the calls.
struct RecordingContext {
    held: bool,
    native_ok: bool,
    calls: Vec<&'static str>,
    size: Option<FrameSize>,
}

impl RecordingContext {
    fn answering(native_ok: bool) -> Self {
        RecordingContext { held: true, native_ok, calls: Vec::new(), size: None }
    }
}

impl GraphicsContext for RecordingContext {
    fn holds_context(&self) -> bool {
        self.held
    }

    fn make_current(&mut self) -> bool {
        self.calls.push("make_current");
        ContextCall::MakeCurrent { native_ok: self.native_ok }.report(self.held)
    }

    fn make_not_current(&mut self) -> bool {
        self.calls.push("make_not_current");
        let call = ContextCall::MakeNotCurrent { native_ok: self.native_ok };
        let reported = call.report(self.held);
        self.held = call.leaves_held(self.held);
        reported
    }

    fn resize(&mut self, size: FrameSize) {
        self.calls.push("resize");
        if self.held {
            self.size = Some(size);
        }
    }

    fn present(&mut self) -> bool {
        self.calls.push("present");
        ContextCall::Present { native_ok: self.native_ok }.report(self.held)
    }
}

#[test]
fn handler_starts_with_an_empty_frame_size() {
    assert_eq!(SctkOpenGLHandler::new().load_current_frame_size(), FrameSize::new(0, 0));
}

#[test]
fn frame_info_callback_keeps_the_size_and_names_the_window_framebuffer() {
    let mut handler = SctkOpenGLHandler::new();
    assert_eq!(handler.fbo_with_frame_info_callback(FrameSize::new(500, 400)), 0);
    assert_eq!(handler.load_current_frame_size(), FrameSize::new(500, 400));
    assert_eq!(handler.fbo_with_frame_info_callback(FrameSize::new(640, 480)), 0);
    assert_eq!(handler.load_current_frame_size(), FrameSize::new(640, 480));
}

#[test]
fn present_swaps_and_tells_the_window() {
    let mut handler = SctkOpenGLHandler::new();
    handler.fbo_with_frame_info_callback(FrameSize::new(640, 480));
    let mut window = FrameSizeNegotiator::new(FrameSize::new(500, 400));
    window.request_resize(FrameSize::new(640, 480));
    let mut context = RecordingContext::answering(true);
    assert!(handler.present(&mut window, &mut context));
    assert_eq!(context.calls, vec!["present"]);
    assert_eq!(window.status(), ResizeStatus::Done);
    assert_eq!(window.surface_size(), FrameSize::new(640, 480));
}

#[test]
fn present_drops_a_frame_of_a_stale_size_without_swapping() {
    let mut handler = SctkOpenGLHandler::new();
    handler.fbo_with_frame_info_callback(FrameSize::new(500, 400));
    let mut window = FrameSizeNegotiator::new(FrameSize::new(500, 400));
    window.request_resize(FrameSize::new(640, 480));
    let before = window;
    let mut context = RecordingContext::answering(true);
    assert!(!handler.present(&mut window, &mut context));
    assert!(context.calls.is_empty());
    assert_eq!(window, before);
}

#[test]
fn present_reports_a_failed_swap_and_leaves_the_frame_pending() {
    let mut handler = SctkOpenGLHandler::new();
    handler.fbo_with_frame_info_callback(FrameSize::new(640, 480));
    let mut window = FrameSizeNegotiator::new(FrameSize::new(500, 400));
    window.request_resize(FrameSize::new(640, 480));
    let mut context = RecordingContext::answering(false);
    assert!(!handler.present(&mut window, &mut context));
    assert_eq!(context.calls, vec!["present"]);
    assert_eq!(window.status(), ResizeStatus::FrameGenerated);
}

#[test]
fn present_never_succeeds_once_the_context_is_lost() {
    let handler = SctkOpenGLHandler::new();
    let mut window = FrameSizeNegotiator::new(FrameSize::new(500, 400));
    let mut context = RecordingContext::answering(false);
    assert!(!handler.clear_current(&mut context));
    context.native_ok = true;
    assert!(!handler.make_current(&mut context));
    assert!(!handler.present(&mut window, &mut context));
    assert!(!handler.clear_current(&mut context));
    assert!(!handler.present(&mut window, &mut context));
}

#[test]
fn make_current_and_clear_current_pass_the_answer_on() {
    let handler = SctkOpenGLHandler::new();
    let mut context = RecordingContext::answering(true);
    assert!(handler.make_current(&mut context));
    assert!(handler.clear_current(&mut context));
    assert!(handler.make_current(&mut context));
    assert_eq!(context.calls, vec!["make_current", "make_not_current", "make_current"]);
    context.native_ok = false;
    assert!(!handler.make_current(&mut context));
}

#[test]
fn resize_reaches_the_context() {
    let handler = SctkOpenGLHandler::new();
    let mut context = RecordingContext::answering(true);
    handler.resize(&mut context, FrameSize::new(1024, 768));
    assert_eq!(context.size, Some(FrameSize::new(1024, 768)));
}
