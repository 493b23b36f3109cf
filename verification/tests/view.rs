use flutter_shell::view::{
    FlutterView, FlutterViewWinit, FlutterWindow, WindowOpenGLHandler, WinitControllerError,
    IMPLICIT_VIEW_ID,
};

#[test]
fn view_pairs_an_id_with_its_window() {
    let window = FlutterWindow::new(4);
    let view = FlutterViewWinit::new(4, window);
    assert_eq!(view.id(), 4);
    assert_eq!(*view.window(), window);
    assert_eq!(view.window().view_id(), 4);
}

#[test]
fn implicit_view_has_the_implicit_id() {
    assert_eq!(IMPLICIT_VIEW_ID, 0);
    let view = FlutterViewWinit::new_implicit(FlutterWindow::new(IMPLICIT_VIEW_ID));
    assert_eq!(view.id(), 0);
    assert_eq!(view.window().view_id(), 0);
}

#[test]
fn flutter_view_is_made_without_compositor() {
    let view = FlutterViewWinit::new(4, FlutterWindow::new(4));
    assert_eq!(
        view.create_flutter_view(),
        FlutterView {
            id: 4,
            opengl_handler: WindowOpenGLHandler { view_id: 4 },
            composited: false,
        }
    );
}

#[test]
fn flutter_view_can_be_made_with_compositor() {
    let handler = FlutterWindow::new(0).create_opengl_handler();
    assert_eq!(handler, WindowOpenGLHandler { view_id: 0 });
    let view = FlutterView::new_with_compositor(0, handler);
    assert!(view.composited);
    assert!(!FlutterView::new_without_compositor(0, handler).composited);
}

#[test]
fn window_build_error_keeps_the_message() {
    let error = WinitControllerError::WinitWindowBuildError("no display".to_string());
    let WinitControllerError::WinitWindowBuildError(message) = error;
    assert_eq!(message, "no display");
}
