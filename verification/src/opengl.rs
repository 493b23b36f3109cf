//! The OpenGL callbacks of a window: presenting a frame without the
//! compositor, binding and releasing the contexts, and taking note of the
//! size that the engine renders at.

use vstd::prelude::*;
use crate::context::{GraphicsContext, ResourceContext};
use crate::frame::{FrameSize, FrameSizeNegotiator};
use crate::gl::WINDOW_FRAMEBUFFER_ID;

verus! {

/// Answers the engine's OpenGL callbacks for one window.
#[derive(Clone, Copy, Debug, PartialEq, Eq)]
pub struct SctkOpenGLHandler {
    current_frame_size: FrameSize,
}

impl SctkOpenGLHandler {
    /// The size of the frame that the engine renders at present.
    pub closed spec fn spec_current_frame_size(&self) -> FrameSize {
        self.current_frame_size
    }

    /// A handler that has not heard of any frame: the size is zero by zero.
    pub fn new() -> (handler: SctkOpenGLHandler)
        ensures
            handler.spec_current_frame_size() == (FrameSize { width: 0, height: 0 }),
    {
        SctkOpenGLHandler { current_frame_size: FrameSize { width: 0, height: 0 } }
    }

    /// Gives the window's surface a new size. This is called on the platform
    /// thread.
    pub fn resize<C: GraphicsContext>(&self, context: &mut C, size: FrameSize)
        requires
            size.is_drawable(),
        ensures
            final(context).holds_context() == old(context).holds_context(),
    {
        context.resize(size);
    }

    #[verifier::when_used_as_spec(spec_current_frame_size)]
    pub fn load_current_frame_size(&self) -> (size: FrameSize)
        ensures
            size == self.spec_current_frame_size(),
    {
        self.current_frame_size
    }

    /// Shows the frame that the engine has rendered. The window is asked
    /// whether a frame of the current size may be shown; if not, the frame
    /// is dropped and nothing else happens. Otherwise the buffers are
    /// swapped, and if that succeeds the window is told that its frame is on
    /// screen.
    pub fn present<C: GraphicsContext>(
        &self,
        window: &mut FrameSizeNegotiator,
        context: &mut C,
    ) -> (ok: bool)
        ensures
            final(context).holds_context() == old(context).holds_context(),
            ok ==> old(context).holds_context(),
            if old(window)@.accepts_frame(self.spec_current_frame_size()) {
                final(window)@ == (if ok {
                    old(window)@.after_frame_generated().after_frame_presented()
                } else {
                    old(window)@.after_frame_generated()
                })
            } else {
                &&& !ok
                &&& final(window)@ == old(window)@
                &&& *final(context) == *old(context)
            },
    {
        let frame_size = self.load_current_frame_size();
        if !window.on_frame_generated(frame_size) {
            return false;
        }
        if !context.present() {
            return false;
        }
        window.on_frame_presented();
        true
    }

    /// Binds the window's context on the calling thread.
    pub fn make_current<C: GraphicsContext>(&self, context: &mut C) -> (ok: bool)
        ensures
            ok ==> old(context).holds_context(),
            final(context).holds_context() == old(context).holds_context(),
    {
        context.make_current()
    }

    /// Releases the window's context from the calling thread.
    pub fn clear_current<C: GraphicsContext>(&self, context: &mut C) -> (ok: bool)
        ensures
            ok ==> old(context).holds_context(),
            final(context).holds_context() == ok,
    {
        context.make_not_current()
    }

    /// The engine tells the size of the frame that it is about to render and
    /// asks for the framebuffer to render into. The size is kept for
    /// [`SctkOpenGLHandler::present`]; the answer is always the window's
    /// framebuffer.
    pub fn fbo_with_frame_info_callback(&mut self, size: FrameSize) -> (framebuffer: u32)
        ensures
            framebuffer == WINDOW_FRAMEBUFFER_ID,
            framebuffer == 0,
            final(self).spec_current_frame_size() == size,
    {
        self.current_frame_size = size;
        WINDOW_FRAMEBUFFER_ID
    }

    /// Binds the resource context on the calling thread. The resource
    /// context keeps its handle.
    pub fn make_resource_current(&self, resource_context: &mut ResourceContext) -> (ok: bool)
        ensures
            final(resource_context).handle() == old(resource_context).handle(),
    {
        resource_context.make_current()
    }
}

} // verus!
