//! The rendering context of a window, and the surfaceless context used for
//! resource uploads. Both are EGL contexts; binding, releasing and swapping
//! are done by the EGL implementation, and what it answers is not known in
//! advance. What the library adds, and what is proved here, is the handling
//! of the context handle around those calls.

use vstd::prelude::*;
use crate::frame::FrameSize;

verus! {

/// glutin's EGL context that may be current on some thread. Opaque.
#[verifier::external_type_specification]
#[verifier::external_body]
pub struct ExPossiblyCurrentContext(glutin::api::egl::context::PossiblyCurrentContext);

/// glutin's EGL context that is current on no thread. Opaque.
#[verifier::external_type_specification]
#[verifier::external_body]
pub struct ExNotCurrentContext(glutin::api::egl::context::NotCurrentContext);

/// The EGL surface of a window: glutin's `Surface<WindowSurface>` of its EGL
/// module, held as it is. The proofs see nothing of the surface and nothing
/// is claimed of it; the field is public so that whoever created the surface
/// can hand it over.
#[verifier::external_body]
pub struct EglWindowSurface {
    pub surface: glutin::api::egl::surface::Surface<glutin::surface::WindowSurface>,
}

/// Calls `PossiblyCurrentGlContext::make_current` of glutin and reports
/// whether it returned `Ok`. Nothing is claimed of the answer: it is EGL's.
#[verifier::external_body]
fn bind_to_surface(
    context: &glutin::api::egl::context::PossiblyCurrentContext,
    target: &EglWindowSurface,
) -> (bound: bool) {
    glutin::context::PossiblyCurrentGlContext::make_current(context, &target.surface).is_ok()
}

/// Calls `PossiblyCurrentGlContext::make_not_current` of glutin, which takes
/// the context and gives it back unbound, or fails and gives nothing back.
/// Nothing is claimed of which it does. glutin panics inside this call if
/// EGL refuses to rebind the client API that the context was created with.
#[verifier::external_body]
fn release_binding(context: glutin::api::egl::context::PossiblyCurrentContext) -> (released:
    Option<glutin::api::egl::context::NotCurrentContext>) {
    glutin::context::PossiblyCurrentGlContext::make_not_current(context).ok()
}

/// Calls `NotCurrentGlContext::treat_as_possibly_current` of glutin, which
/// only changes the type of the handle.
#[verifier::external_body]
fn reclaim(context: glutin::api::egl::context::NotCurrentContext) -> (reclaimed:
    glutin::api::egl::context::PossiblyCurrentContext) {
    glutin::context::NotCurrentGlContext::treat_as_possibly_current(context)
}

/// Calls `GlSurface::swap_buffers` of glutin and reports whether it returned
/// `Ok`. Nothing is claimed of the answer. glutin panics inside this call if
/// EGL refuses to rebind the client API that the context was created with.
#[verifier::external_body]
fn swap_surface_buffers(
    target: &EglWindowSurface,
    context: &glutin::api::egl::context::PossiblyCurrentContext,
) -> (swapped: bool) {
    glutin::surface::GlSurface::swap_buffers(&target.surface, context).is_ok()
}

/// Calls `GlSurface::resize` of glutin, which takes non-zero dimensions and
/// returns nothing.
#[verifier::external_body]
fn resize_surface(
    target: &EglWindowSurface,
    context: &glutin::api::egl::context::PossiblyCurrentContext,
    width: u32,
    height: u32,
)
    requires
        width > 0,
        height > 0,
{
    let width = std::num::NonZeroU32::new(width).unwrap();
    let height = std::num::NonZeroU32::new(height).unwrap();
    glutin::surface::GlSurface::resize(&target.surface, context, width, height)
}

/// Calls `PossiblyCurrentContext::make_current_surfaceless` of glutin's EGL
/// module and reports whether it returned `Ok`. Nothing is claimed of the
/// answer.
#[verifier::external_body]
fn bind_surfaceless(context: &glutin::api::egl::context::PossiblyCurrentContext) -> (bound: bool) {
    context.make_current_surfaceless().is_ok()
}

/// A call on a rendering context, together with what the native layer
/// answered, or would have answered, when asked.
#[derive(Clone, Copy, Debug, PartialEq, Eq)]
pub enum ContextCall {
    MakeCurrent { native_ok: bool },
    MakeNotCurrent { native_ok: bool },
    Present { native_ok: bool },
    Resize,
}

/// What the call reports to its caller, given whether the context handle is
/// held: the native layer is asked only if it is, and its answer is passed
/// on.
pub open spec fn call_report(held: bool, call: ContextCall) -> bool {
    match call {
        ContextCall::MakeCurrent { native_ok } => held && native_ok,
        ContextCall::MakeNotCurrent { native_ok } => held && native_ok,
        ContextCall::Present { native_ok } => held && native_ok,
        ContextCall::Resize => held,
    }
}

/// Whether the handle is held after the call: a release that fails loses it,
/// nothing else changes it.
pub open spec fn held_after(held: bool, call: ContextCall) -> bool {
    match call {
        ContextCall::MakeNotCurrent { native_ok } => held && native_ok,
        _ => held,
    }
}

impl ContextCall {
    /// Executable form of [`call_report`].
    pub fn report(self, held: bool) -> (reported: bool)
        ensures
            reported == call_report(held, self),
    {
        match self {
            ContextCall::MakeCurrent { native_ok } => held && native_ok,
            ContextCall::MakeNotCurrent { native_ok } => held && native_ok,
            ContextCall::Present { native_ok } => held && native_ok,
            ContextCall::Resize => held,
        }
    }

    /// Executable form of [`held_after`].
    pub fn leaves_held(self, held: bool) -> (still_held: bool)
        ensures
            still_held == held_after(held, self),
    {
        match self {
            ContextCall::MakeNotCurrent { native_ok } => held && native_ok,
            _ => held,
        }
    }
}

/// Whether the context is current on a thread after the call, as far as the
/// calls tell. A binding that succeeds makes it current. A release ends
/// that, whether it succeeds or fails: after a failure the handle is gone,
/// and with it any use of the context. Nothing else changes it.
pub open spec fn current_after(held: bool, current: bool, call: ContextCall) -> bool {
    match call {
        ContextCall::MakeCurrent { native_ok } => current || (held && native_ok),
        ContextCall::MakeNotCurrent { native_ok } => current && !held,
        _ => current,
    }
}

/// Whether the handle is held after all of `calls`, made in order.
pub open spec fn held_after_all(held: bool, calls: Seq<ContextCall>) -> bool
    decreases calls.len(),
{
    if calls.len() == 0 {
        held
    } else {
        held_after(held_after_all(held, calls.drop_last()), calls.last())
    }
}

/// Whether the context is current after all of `calls`, made in order from
/// a state in which the handle is held as `held` tells and the context is
/// current as `current` tells.
pub open spec fn current_after_all(held: bool, current: bool, calls: Seq<ContextCall>) -> bool
    decreases calls.len(),
{
    if calls.len() == 0 {
        current
    } else {
        current_after(
            held_after_all(held, calls.drop_last()),
            current_after_all(held, current, calls.drop_last()),
            calls.last(),
        )
    }
}

/// A rendering context as the callbacks of the engine use it. It is bound
/// to, and released from, the calling thread; while bound, OpenGL calls go
/// to its surface, and `present` shows what they drew.
///
/// Calls from two threads must not overlap: whoever hands a context to the
/// render thread waits until that thread has released it. The type does not
/// enforce this.
pub trait GraphicsContext {
    /// Whether the context handle is held. It is lost for good when a
    /// release fails.
    spec fn holds_context(&self) -> bool;

    /// Binds the context to its surface on the calling thread. Reports
    /// `false` if the handle is lost or the native layer refuses.
    fn make_current(&mut self) -> (ok: bool)
        ensures
            ok == call_report(old(self).holds_context(), ContextCall::MakeCurrent { native_ok: ok }),
            final(self).holds_context() == held_after(
                old(self).holds_context(),
                ContextCall::MakeCurrent { native_ok: ok },
            ),
    ;

    /// Releases the context from the calling thread. On success the handle
    /// is held afterwards, so that a later `make_current` can succeed; on
    /// failure it is lost.
    fn make_not_current(&mut self) -> (ok: bool)
        ensures
            ok == call_report(
                old(self).holds_context(),
                ContextCall::MakeNotCurrent { native_ok: ok },
            ),
            final(self).holds_context() == held_after(
                old(self).holds_context(),
                ContextCall::MakeNotCurrent { native_ok: ok },
            ),
            final(self).holds_context() == ok,
    ;

    /// Gives the surface a new size. Without the handle nothing is done.
    fn resize(&mut self, size: FrameSize)
        requires
            size.is_drawable(),
        ensures
            final(self).holds_context() == held_after(old(self).holds_context(), ContextCall::Resize),
    ;

    /// Swaps the buffers of the surface. Reports `false` if the handle is
    /// lost or the native layer refuses; it never reports success without
    /// the handle.
    fn present(&mut self) -> (ok: bool)
        ensures
            ok == call_report(old(self).holds_context(), ContextCall::Present { native_ok: ok }),
            ok ==> old(self).holds_context(),
            final(self).holds_context() == held_after(
                old(self).holds_context(),
                ContextCall::Present { native_ok: ok },
            ),
    ;
}

/// A window's EGL rendering context: the surface, and the context handle as
/// long as no release has failed.
pub struct Context {
    surface: EglWindowSurface,
    context: Option<glutin::api::egl::context::PossiblyCurrentContext>,
}

impl Context {
    /// A context for `surface`. The handle is held.
    pub fn new(
        surface: EglWindowSurface,
        context: glutin::api::egl::context::PossiblyCurrentContext,
    ) -> (created: Context)
        ensures
            created.holds_context(),
    {
        Context { surface, context: Some(context) }
    }

    /// Executable form of [`GraphicsContext::holds_context`].
    pub fn is_held(&self) -> (held: bool)
        ensures
            held == self.holds_context(),
    {
        self.context.is_some()
    }
}

impl GraphicsContext for Context {
    closed spec fn holds_context(&self) -> bool {
        self.context is Some
    }

    fn make_current(&mut self) -> (ok: bool) {
        match &self.context {
            Some(context) => bind_to_surface(context, &self.surface),
            None => false,
        }
    }

    fn make_not_current(&mut self) -> (ok: bool) {
        match self.context.take() {
            Some(context) => match release_binding(context) {
                Some(released) => {
                    self.context = Some(reclaim(released));
                    true
                },
                None => false,
            },
            None => false,
        }
    }

    fn resize(&mut self, size: FrameSize) {
        match &self.context {
            Some(context) => resize_surface(&self.surface, context, size.width, size.height),
            None => {},
        }
    }

    fn present(&mut self) -> (ok: bool) {
        match &self.context {
            Some(context) => swap_surface_buffers(&self.surface, context),
            None => false,
        }
    }
}

/// A context without a surface, for uploading resources off the render thread.
pub struct ResourceContext {
    context: glutin::api::egl::context::PossiblyCurrentContext,
}

impl ResourceContext {
    /// A resource context that holds `context`.
    pub fn new(context: glutin::api::egl::context::PossiblyCurrentContext) -> (created:
        ResourceContext)
        ensures
            created.handle() == context,
    {
        ResourceContext { context }
    }

    /// Binds the context, without a surface, on the calling thread, and
    /// reports whether EGL accepted. The handle is kept either way.
    pub fn make_current(&mut self) -> (ok: bool)
        ensures
            final(self).handle() == old(self).handle(),
    {
        bind_surfaceless(&self.context)
    }

    /// The context handle that is held. It is the one given at creation for
    /// as long as the resource context lives.
    pub closed spec fn handle(&self) -> glutin::api::egl::context::PossiblyCurrentContext {
        self.context
    }
}

/// No call reports success unless the handle is held.
pub proof fn lemma_report_needs_context(held: bool, call: ContextCall)
    ensures
        call_report(held, call) ==> held,
        held_after(held, call) ==> held,
{
}

/// Calls never bring a lost handle back.
pub proof fn lemma_lost_context_stays_lost(calls: Seq<ContextCall>)
    ensures
        !held_after_all(false, calls),
    decreases calls.len(),
{
    if calls.len() > 0 {
        lemma_lost_context_stays_lost(calls.drop_last());
    }
}

/// The state after `first` followed by `second` is the state after `second`
/// started from the state after `first`.
pub proof fn lemma_held_after_concat(held: bool, first: Seq<ContextCall>, second: Seq<ContextCall>)
    ensures
        held_after_all(held, first + second) == held_after_all(
            held_after_all(held, first),
            second,
        ),
    decreases second.len(),
{
    if second.len() == 0 {
        assert(first + second =~= first);
    } else {
        lemma_held_after_concat(held, first, second.drop_last());
        assert((first + second).drop_last() =~= first + second.drop_last());
        assert((first + second).last() == second.last());
    }
}

/// Whatever calls are made, in whatever order and with whatever answers from
/// the native layer: a present that reports success found the handle held, and once the
/// handle is lost no later present reports success.
pub proof fn lemma_present_needs_held_context(
    held: bool,
    before: Seq<ContextCall>,
    after: Seq<ContextCall>,
    native_ok: bool,
)
    ensures
        call_report(held_after_all(held, before), ContextCall::Present { native_ok })
            ==> held_after_all(held, before),
        !held_after_all(held, before) ==> !call_report(
            held_after_all(held, before + after),
            ContextCall::Present { native_ok },
        ),
{
    lemma_held_after_concat(held, before, after);
    if !held_after_all(held, before) {
        lemma_lost_context_stays_lost(after);
    }
}

/// A context whose handle is lost is not current, whatever calls were made:
/// only a context that is held can be current.
pub proof fn lemma_current_context_is_held(held: bool, current: bool, calls: Seq<ContextCall>)
    requires
        current ==> held,
    ensures
        current_after_all(held, current, calls) ==> held_after_all(held, calls),
    decreases calls.len(),
{
    if calls.len() > 0 {
        lemma_current_context_is_held(held, current, calls.drop_last());
    }
}

/// After any calls, a present does not report success while the context is
/// not current. This rests on the native layer, which swaps buffers only
/// for a context that is current; where the handle is lost the native layer
/// is not even asked, see [`lemma_present_needs_held_context`].
pub proof fn lemma_present_needs_current_context(
    held: bool,
    current: bool,
    calls: Seq<ContextCall>,
    native_ok: bool,
)
    requires
        current ==> held,
        native_ok ==> current_after_all(held, current, calls),
    ensures
        call_report(held_after_all(held, calls), ContextCall::Present { native_ok })
            ==> current_after_all(held, current, calls),
        !held_after_all(held, calls) ==> !current_after_all(held, current, calls)
            && !call_report(held_after_all(held, calls), ContextCall::Present { native_ok }),
{
    lemma_current_context_is_held(held, current, calls);
}

} // verus!
