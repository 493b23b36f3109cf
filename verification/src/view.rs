//! Views: the pairing of an engine view id with the window that shows it.

use vstd::prelude::*;

verus! {

/// Identifier the engine gives to a view.
pub type FlutterViewId = i64;

/// The view that exists before any other is added.
pub const IMPLICIT_VIEW_ID: FlutterViewId = 0;

/// Names the window whose rendering context answers the engine's OpenGL
/// callbacks for a view.
#[derive(Clone, Copy, Debug, PartialEq, Eq, Structural)]
pub struct WindowOpenGLHandler {
    pub view_id: FlutterViewId,
}

/// What the engine is told when a view is added.
#[derive(Clone, Copy, Debug, PartialEq, Eq, Structural)]
pub struct FlutterView {
    pub id: FlutterViewId,
    pub opengl_handler: WindowOpenGLHandler,
    /// Whether frames of this view pass through the compositor callbacks.
    pub composited: bool,
}

impl FlutterView {
    /// A view whose frames go through the compositor callbacks.
    pub fn new_with_compositor(id: FlutterViewId, opengl_handler: WindowOpenGLHandler) -> (view:
        FlutterView)
        ensures
            view == (FlutterView { id, opengl_handler, composited: true }),
    {
        FlutterView { id, opengl_handler, composited: true }
    }

    /// A view that is presented by the OpenGL callbacks alone.
    pub fn new_without_compositor(id: FlutterViewId, opengl_handler: WindowOpenGLHandler) -> (view:
        FlutterView)
        ensures
            view == (FlutterView { id, opengl_handler, composited: false }),
    {
        FlutterView { id, opengl_handler, composited: false }
    }
}

/// The shell's record of a window that was opened for a view.
#[derive(Clone, Copy, Debug, PartialEq, Eq, Structural)]
pub struct FlutterWindow {
    view_id: FlutterViewId,
}

impl FlutterWindow {
    /// The view that the window was opened for.
    pub closed spec fn spec_view_id(&self) -> FlutterViewId {
        self.view_id
    }

    /// Records a window opened for view `view_id`.
    pub fn new(view_id: FlutterViewId) -> (window: FlutterWindow)
        ensures
            window.spec_view_id() == view_id,
    {
        FlutterWindow { view_id }
    }

    #[verifier::when_used_as_spec(spec_view_id)]
    pub fn view_id(&self) -> (id: FlutterViewId)
        ensures
            id == self.spec_view_id(),
    {
        self.view_id
    }

    /// The handler through which the engine reaches this window's context.
    pub fn create_opengl_handler(&self) -> (handler: WindowOpenGLHandler)
        ensures
            handler.view_id == self.spec_view_id(),
    {
        WindowOpenGLHandler { view_id: self.view_id }
    }
}

/// A view together with its window.
#[derive(Clone, Copy, Debug, PartialEq, Eq, Structural)]
pub struct FlutterViewWinit {
    id: FlutterViewId,
    window: FlutterWindow,
}

impl FlutterViewWinit {
    pub closed spec fn spec_id(&self) -> FlutterViewId {
        self.id
    }

    pub closed spec fn spec_window(&self) -> FlutterWindow {
        self.window
    }

    /// Pairs view `id` with `window`.
    pub fn new(id: FlutterViewId, window: FlutterWindow) -> (view: FlutterViewWinit)
        ensures
            view.spec_id() == id,
            view.spec_window() == window,
    {
        FlutterViewWinit { id, window }
    }

    /// The view of the implicit window: `window` paired with the implicit view id.
    pub fn new_implicit(window: FlutterWindow) -> (view: FlutterViewWinit)
        ensures
            view.spec_id() == IMPLICIT_VIEW_ID,
            view.spec_window() == window,
    {
        FlutterViewWinit::new(IMPLICIT_VIEW_ID, window)
    }

    #[verifier::when_used_as_spec(spec_id)]
    pub fn id(&self) -> (id: FlutterViewId)
        ensures
            id == self.spec_id(),
    {
        self.id
    }

    pub fn window(&self) -> (window: &FlutterWindow)
        ensures
            *window == self.spec_window(),
    {
        &self.window
    }

    /// What the engine is told about this view: its own id, the handler of
    /// its window, and no compositor.
    pub fn create_flutter_view(&self) -> (view: FlutterView)
        ensures
            view.id == self.spec_id(),
            view.opengl_handler.view_id == self.spec_window().spec_view_id(),
            !view.composited,
    {
        FlutterView::new_without_compositor(self.id, self.window.create_opengl_handler())
    }
}

/// Why a view could not be created.
#[derive(Debug)]
pub enum WinitControllerError {
    /// The window could not be built; the text is the window system's message.
    WinitWindowBuildError(String),
}

} // verus!
