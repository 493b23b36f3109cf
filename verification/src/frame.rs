//! Frame sizes and the negotiation between the size the engine rendered and
//! the size the window wants.

use vstd::prelude::*;

verus! {

/// Physical size of a frame or of a window surface, in pixels.
#[derive(Clone, Copy, Debug, PartialEq, Eq, Structural)]
pub struct FrameSize {
    pub width: u32,
    pub height: u32,
}

impl FrameSize {
    /// A size of `width` by `height` pixels.
    pub fn new(width: u32, height: u32) -> (size: FrameSize)
        ensures
            size.width == width,
            size.height == height,
    {
        FrameSize { width, height }
    }

    /// Whether both dimensions are positive, so that a surface can take this size.
    pub open spec fn is_drawable(&self) -> bool {
        self.width > 0 && self.height > 0
    }

    /// Executable form of [`FrameSize::is_drawable`].
    pub fn drawable(&self) -> (yes: bool)
        ensures
            yes == self.is_drawable(),
    {
        self.width > 0 && self.height > 0
    }
}

/// Where a window stands in taking a new size.
#[derive(Clone, Copy, Debug, PartialEq, Eq, Structural)]
pub enum ResizeStatus {
    /// The surface has the size the window wants.
    Done,
    /// The window wants a new size; no frame of that size has been seen yet.
    ResizeStarted,
    /// A frame of the wanted size was accepted and waits to be presented.
    FrameGenerated,
}

/// The negotiation state of one window, as a mathematical value.
pub struct Negotiation {
    /// Size of the surface as it is.
    pub surface_size: FrameSize,
    /// Size that the window asked for last.
    pub target_size: FrameSize,
    pub status: ResizeStatus,
}

impl Negotiation {
    /// Outside a pending resize the surface has the wanted size.
    pub open spec fn well_formed(self) -> bool {
        self.status != ResizeStatus::ResizeStarted ==> self.surface_size == self.target_size
    }

    pub open spec fn resize_pending(self) -> bool {
        self.status == ResizeStatus::ResizeStarted
    }

    /// A frame of `size` may be presented: no resize is pending, or the frame
    /// has exactly the wanted size and the surface can take it.
    pub open spec fn accepts_frame(self, size: FrameSize) -> bool {
        !self.resize_pending() || (size == self.target_size && self.target_size.is_drawable())
    }

    /// A frame without content may be presented: no resize is pending, or the
    /// surface can take the wanted size.
    pub open spec fn accepts_empty_frame(self) -> bool {
        !self.resize_pending() || self.target_size.is_drawable()
    }

    /// The state once a frame has been accepted: a pending resize is carried out.
    pub open spec fn after_frame_generated(self) -> Negotiation {
        if self.resize_pending() {
            Negotiation {
                surface_size: self.target_size,
                target_size: self.target_size,
                status: ResizeStatus::FrameGenerated,
            }
        } else {
            self
        }
    }

    /// The state once the accepted frame is on screen.
    pub open spec fn after_frame_presented(self) -> Negotiation {
        if self.status == ResizeStatus::FrameGenerated {
            Negotiation { status: ResizeStatus::Done, ..self }
        } else {
            self
        }
    }

    /// The state once the window has asked for `size`.
    pub open spec fn after_resize_request(self, size: FrameSize) -> Negotiation {
        Negotiation { target_size: size, status: ResizeStatus::ResizeStarted, ..self }
    }
}

/// Decides, for each frame the engine hands over, whether it may be shown:
/// a frame rendered for a size that the window has left behind is dropped.
#[derive(Clone, Copy, Debug, PartialEq, Eq)]
pub struct FrameSizeNegotiator {
    surface_size: FrameSize,
    target_size: FrameSize,
    status: ResizeStatus,
}

impl View for FrameSizeNegotiator {
    type V = Negotiation;

    closed spec fn view(&self) -> Negotiation {
        Negotiation {
            surface_size: self.surface_size,
            target_size: self.target_size,
            status: self.status,
        }
    }
}

impl FrameSizeNegotiator {
    #[verifier::type_invariant]
    spec fn consistent(self) -> bool {
        self@.well_formed()
    }

    /// A window whose surface has `size` and wants no other.
    pub fn new(size: FrameSize) -> (negotiator: FrameSizeNegotiator)
        ensures
            negotiator@ == (Negotiation {
                surface_size: size,
                target_size: size,
                status: ResizeStatus::Done,
            }),
    {
        FrameSizeNegotiator { surface_size: size, target_size: size, status: ResizeStatus::Done }
    }

    pub fn surface_size(&self) -> (size: FrameSize)
        ensures
            size == self@.surface_size,
    {
        self.surface_size
    }

    pub fn target_size(&self) -> (size: FrameSize)
        ensures
            size == self@.target_size,
    {
        self.target_size
    }

    /// The status; it also tells the caller that the state is well formed.
    pub fn status(&self) -> (status: ResizeStatus)
        ensures
            status == self@.status,
            self@.well_formed(),
    {
        proof {
            use_type_invariant(self);
        }
        self.status
    }

    /// The window asks for `size`; frames of any other size are dropped from now on.
    pub fn request_resize(&mut self, size: FrameSize)
        ensures
            final(self)@ == old(self)@.after_resize_request(size),
    {
        self.status = ResizeStatus::ResizeStarted;
        self.target_size = size;
    }

    /// The engine has rendered a frame of `size`. Returns whether it may be
    /// presented; if so, a pending resize is carried out. A rejected frame
    /// leaves the state as it was.
    pub fn on_frame_generated(&mut self, size: FrameSize) -> (accepted: bool)
        ensures
            accepted == old(self)@.accepts_frame(size),
            final(self)@ == (if accepted {
                old(self)@.after_frame_generated()
            } else {
                old(self)@
            }),
    {
        proof {
            use_type_invariant(&*self);
        }
        match self.status {
            ResizeStatus::ResizeStarted => {
                if size.width != self.target_size.width || size.height != self.target_size.height {
                    return false;
                }
                if !self.target_size.drawable() {
                    return false;
                }
                self.surface_size = self.target_size;
                self.status = ResizeStatus::FrameGenerated;
                true
            },
            _ => true,
        }
    }

    /// The engine has produced a frame without content. Returns whether it may
    /// be presented; if so, a pending resize is carried out.
    pub fn on_empty_frame_generated(&mut self) -> (accepted: bool)
        ensures
            accepted == old(self)@.accepts_empty_frame(),
            final(self)@ == (if accepted {
                old(self)@.after_frame_generated()
            } else {
                old(self)@
            }),
    {
        proof {
            use_type_invariant(&*self);
        }
        match self.status {
            ResizeStatus::ResizeStarted => {
                if !self.target_size.drawable() {
                    return false;
                }
                self.surface_size = self.target_size;
                self.status = ResizeStatus::FrameGenerated;
                true
            },
            _ => true,
        }
    }

    /// The accepted frame is on screen: a resize that it carried out is complete.
    pub fn on_frame_presented(&mut self)
        ensures
            final(self)@ == old(self)@.after_frame_presented(),
    {
        proof {
            use_type_invariant(&*self);
        }
        match self.status {
            ResizeStatus::FrameGenerated => {
                self.status = ResizeStatus::Done;
            },
            _ => {},
        }
    }
}

/// While a resize is pending, no frame of another size is accepted.
pub proof fn lemma_stale_frame_is_dropped(state: Negotiation, size: FrameSize)
    requires
        state.resize_pending(),
        size != state.target_size,
    ensures
        !state.accepts_frame(size),
{
}

/// An accepted frame that is then presented leaves the window with the size
/// it wanted and nothing pending.
pub proof fn lemma_presented_frame_completes_resize(state: Negotiation, size: FrameSize)
    requires
        state.well_formed(),
        state.accepts_frame(size),
    ensures
        state.after_frame_generated().after_frame_presented().surface_size == state.target_size,
        !state.after_frame_generated().after_frame_presented().resize_pending(),
        state.after_frame_generated().after_frame_presented().well_formed(),
        state.resize_pending() ==> state.after_frame_generated().after_frame_presented().surface_size
            == size,
{
}

} // verus!
