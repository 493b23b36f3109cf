//! The compositor callbacks: creating and collecting backing stores, and
//! showing a frame. Each callback decides which OpenGL calls are made and
//! hands them out as a list; the caller issues them while the context is
//! current, which the callback has seen to.

use vstd::prelude::*;
use crate::context::GraphicsContext;
use crate::embedder::{
    FlutterBackingStore, FlutterBackingStoreConfig, FlutterBackingStoreDescription, FlutterLayer,
    FlutterLayerContent, FlutterOpenGLBackingStore, FlutterOpenGLBackingStoreFramebuffer,
    FlutterOpenGLFramebuffer, FlutterPoint, FlutterPresentViewInfo,
};
use crate::frame::{FrameSizeNegotiator, Negotiation};
use crate::gl::{
    GlCommand, ALL_BUFFERS, CLAMP_TO_EDGE, COLOR_ATTACHMENT0, COLOR_BUFFER_BIT, DRAW_FRAMEBUFFER,
    FRAMEBUFFER, NEAREST, READ_FRAMEBUFFER, RGBA, RGBA8, SCISSOR_TEST, TEXTURE_2D,
    TEXTURE_MAG_FILTER, TEXTURE_MIN_FILTER, TEXTURE_WRAP_S, TEXTURE_WRAP_T, UNSIGNED_BYTE,
    WINDOW_FRAMEBUFFER_ID,
};

verus! {

/// Why a frame was not shown.
#[derive(Clone, Copy, Debug, PartialEq, Eq, Structural)]
pub enum PresentFailure {
    /// The window refused a frame without content.
    EmptyFrameRejected,
    /// The window refused the frame, as it does when the frame was rendered
    /// for a size that the window has left behind.
    FrameRejected,
    /// The rendering context could not be made current.
    ContextNotCurrent,
    /// The buffers could not be swapped.
    SwapFailed,
    /// The layer is not an OpenGL framebuffer backing store.
    NoFramebufferName,
}

impl PresentFailure {
    pub fn message(&self) -> (text: String)
        ensures
            text@ == (match *self {
                PresentFailure::EmptyFrameRejected => "Empty frame generated callback failed"@,
                PresentFailure::FrameRejected => "Frame generated callback failed"@,
                PresentFailure::ContextNotCurrent => "Unable to make context current"@,
                PresentFailure::SwapFailed => "Present failed"@,
                PresentFailure::NoFramebufferName =>
                    "Unable to retrieve framebuffer name from layer"@,
            }),
    {
        match self {
            PresentFailure::EmptyFrameRejected => "Empty frame generated callback failed".to_owned(),
            PresentFailure::FrameRejected => "Frame generated callback failed".to_owned(),
            PresentFailure::ContextNotCurrent => "Unable to make context current".to_owned(),
            PresentFailure::SwapFailed => "Present failed".to_owned(),
            PresentFailure::NoFramebufferName =>
                "Unable to retrieve framebuffer name from layer".to_owned(),
        }
    }
}

#[derive(Clone, Copy, Debug, PartialEq, Eq, Structural)]
pub enum CompositorPresentError {
    PresentFailed(PresentFailure),
}

/// Why a backing store was not collected.
#[derive(Clone, Copy, Debug, PartialEq, Eq, Structural)]
pub enum CollectFailure {
    /// The store is not made of OpenGL objects.
    NotOpenGL,
    /// The store is an OpenGL store, but not a framebuffer.
    NotFramebuffer,
}

impl CollectFailure {
    pub fn message(&self) -> (text: String)
        ensures
            text@ == (match *self {
                CollectFailure::NotOpenGL => "Only OpenGL backing stores are currently implemented"@,
                CollectFailure::NotFramebuffer =>
                    "Only OpenGL framebuffer backing stores are currently implemented"@,
            }),
    {
        match self {
            CollectFailure::NotOpenGL =>
                "Only OpenGL backing stores are currently implemented".to_owned(),
            CollectFailure::NotFramebuffer =>
                "Only OpenGL framebuffer backing stores are currently implemented".to_owned(),
        }
    }
}

#[derive(Clone, Copy, Debug, PartialEq, Eq, Structural)]
pub enum CompositorCollectBackingStoreError {
    CollectFailed(CollectFailure),
}

/// Creating a backing store as this shell does it cannot fail; the type is
/// there for the engine's interface.
#[derive(Clone, Copy, Debug, PartialEq, Eq, Structural)]
pub enum CompositorCreateBackingStoreError {
    CreateFailed,
}

/// A new backing store, with the calls that set up its GPU objects.
#[derive(Clone, Debug, PartialEq, Eq)]
pub struct BackingStoreAllocation {
    pub backing_store: FlutterBackingStore,
    pub commands: Vec<GlCommand>,
}

/// The calls that show an empty frame: clear everything to transparent black.
pub open spec fn clear_commands() -> Seq<GlCommand> {
    seq![
        GlCommand::ClearColor { red: 0, green: 0, blue: 0, alpha: 0 },
        GlCommand::Clear { mask: ALL_BUFFERS },
    ]
}

/// The calls that copy framebuffer `source` into the window's framebuffer:
/// the rectangle from the origin to (`width`, `height`), unscaled, with the
/// scissor test switched off so that the whole rectangle arrives.
pub open spec fn blit_commands(source: u32, width: i32, height: i32) -> Seq<GlCommand> {
    seq![
        GlCommand::Disable { capability: SCISSOR_TEST },
        GlCommand::BindFramebuffer { target: READ_FRAMEBUFFER, framebuffer: source },
        GlCommand::BindFramebuffer { target: DRAW_FRAMEBUFFER, framebuffer: WINDOW_FRAMEBUFFER_ID },
        GlCommand::BlitFramebuffer {
            src_x0: 0,
            src_y0: 0,
            src_x1: width,
            src_y1: height,
            dst_x0: 0,
            dst_y0: 0,
            dst_x1: width,
            dst_y1: height,
            mask: COLOR_BUFFER_BIT,
            filter: NEAREST,
        },
    ]
}

/// The calls that give framebuffer `framebuffer` a colour attachment:
/// texture `texture`, allocated with `width` by `height` pixels in `format`,
/// sampled to the nearest pixel and clamped at its edges.
pub open spec fn allocation_commands(
    format: u32,
    texture: u32,
    framebuffer: u32,
    width: i32,
    height: i32,
) -> Seq<GlCommand> {
    seq![
        GlCommand::BindFramebuffer { target: FRAMEBUFFER, framebuffer },
        GlCommand::BindTexture { target: TEXTURE_2D, texture },
        GlCommand::TexParameteri {
            target: TEXTURE_2D,
            name: TEXTURE_MIN_FILTER,
            value: NEAREST as i32,
        },
        GlCommand::TexParameteri {
            target: TEXTURE_2D,
            name: TEXTURE_MAG_FILTER,
            value: NEAREST as i32,
        },
        GlCommand::TexParameteri {
            target: TEXTURE_2D,
            name: TEXTURE_WRAP_S,
            value: CLAMP_TO_EDGE as i32,
        },
        GlCommand::TexParameteri {
            target: TEXTURE_2D,
            name: TEXTURE_WRAP_T,
            value: CLAMP_TO_EDGE as i32,
        },
        GlCommand::TexImage2D {
            target: TEXTURE_2D,
            level: 0,
            internal_format: format as i32,
            width,
            height,
            border: 0,
            format: RGBA,
            kind: UNSIGNED_BYTE,
        },
        GlCommand::BindTexture { target: TEXTURE_2D, texture: 0 },
        GlCommand::FramebufferTexture2D {
            target: FRAMEBUFFER,
            attachment: COLOR_ATTACHMENT0,
            texture_target: TEXTURE_2D,
            texture,
            level: 0,
        },
    ]
}

/// The calls that free the GPU objects of a backing store.
pub open spec fn deletion_commands(objects: FlutterOpenGLBackingStoreFramebuffer) -> Seq<GlCommand> {
    seq![
        GlCommand::DeleteFramebuffers { framebuffer: objects.framebuffer_id },
        GlCommand::DeleteTextures { texture: objects.texture_id },
    ]
}

/// The backing store that wraps `objects` as a framebuffer of `format`.
pub open spec fn framebuffer_store(
    format: u32,
    objects: FlutterOpenGLBackingStoreFramebuffer,
) -> FlutterBackingStore {
    FlutterBackingStore {
        description: FlutterBackingStoreDescription::OpenGL(
            FlutterOpenGLBackingStore::Framebuffer(
                FlutterOpenGLFramebuffer { format, user_data: objects },
            ),
        ),
    }
}

/// Why `store` cannot be collected, if it cannot.
pub open spec fn collect_failure(store: FlutterBackingStore) -> Option<CollectFailure> {
    match store.description {
        FlutterBackingStoreDescription::OpenGL(FlutterOpenGLBackingStore::Framebuffer(_)) => None,
        FlutterBackingStoreDescription::OpenGL(_) => Some(CollectFailure::NotFramebuffer),
        _ => Some(CollectFailure::NotOpenGL),
    }
}

/// The calls that a callback asks for: those it returned, none if it failed.
pub open spec fn requested_commands<E>(outcome: Result<Vec<GlCommand>, E>) -> Seq<GlCommand> {
    match outcome {
        Ok(commands) => commands@,
        Err(_) => Seq::empty(),
    }
}

/// How far the preparation of a frame gets before the rendering context is
/// asked for.
pub enum Preparation {
    /// The frame is given up, for the reason told; neither the window nor
    /// the context is touched.
    Refused(PresentFailure),
    /// The window has accepted the frame. Once the context is current these
    /// calls show it.
    Ready(Seq<GlCommand>),
}

/// The preparation of a frame without content for a window in state
/// `window`.
pub open spec fn empty_frame_preparation(window: Negotiation) -> Preparation {
    if window.accepts_empty_frame() {
        Preparation::Ready(clear_commands())
    } else {
        Preparation::Refused(PresentFailure::EmptyFrameRejected)
    }
}

/// The preparation of a frame with layers `layers` for a window in state
/// `window`. A frame without layers is cleared. A frame with a layer is
/// copied from the layer's framebuffer, at the layer's size, if the layer
/// has a framebuffer and the window accepts a frame of that size.
pub open spec fn frame_preparation(layers: Seq<FlutterLayer>, window: Negotiation) -> Preparation {
    if layers.len() == 0 {
        empty_frame_preparation(window)
    } else {
        let layer = layers[0];
        match layer.content.spec_framebuffer_name() {
            None => Preparation::Refused(PresentFailure::NoFramebufferName),
            Some(source) => if window.accepts_frame(layer.size.spec_frame_size()) {
                Preparation::Ready(
                    blit_commands(source, layer.size.spec_gl_width(), layer.size.spec_gl_height()),
                )
            } else {
                Preparation::Refused(PresentFailure::FrameRejected)
            },
        }
    }
}

/// What a callback that prepares a frame owes, given the preparation. A
/// refused frame fails with its reason and changes nothing. A ready frame
/// has been accepted by the window; whether the context could then be made
/// current is for the native layer to say, except that it cannot without
/// its handle. If it could, exactly the prepared calls are returned.
pub open spec fn meets_preparation<C: GraphicsContext>(
    preparation: Preparation,
    outcome: Result<Vec<GlCommand>, CompositorPresentError>,
    window_before: Negotiation,
    window_after: Negotiation,
    context_before: C,
    context_after: C,
) -> bool {
    match preparation {
        Preparation::Refused(failure) => {
            &&& outcome == Err::<Vec<GlCommand>, _>(CompositorPresentError::PresentFailed(failure))
            &&& window_after == window_before
            &&& context_after == context_before
        },
        Preparation::Ready(commands) => {
            &&& window_after == window_before.after_frame_generated()
            &&& context_after.holds_context() == context_before.holds_context()
            &&& match outcome {
                Ok(issued) => issued@ == commands && context_before.holds_context(),
                Err(error) => error == CompositorPresentError::PresentFailed(
                    PresentFailure::ContextNotCurrent,
                ),
            }
        },
    }
}

/// Executable form of [`clear_commands`].
pub fn build_clear_commands() -> (commands: Vec<GlCommand>)
    ensures
        commands@ == clear_commands(),
{
    let mut commands: Vec<GlCommand> = Vec::new();
    commands.push(GlCommand::ClearColor { red: 0, green: 0, blue: 0, alpha: 0 });
    commands.push(GlCommand::Clear { mask: ALL_BUFFERS });
    assert(commands@ =~= clear_commands());
    commands
}

/// Executable form of [`blit_commands`].
pub fn build_blit_commands(source: u32, width: i32, height: i32) -> (commands: Vec<GlCommand>)
    ensures
        commands@ == blit_commands(source, width, height),
{
    let mut commands: Vec<GlCommand> = Vec::new();
    commands.push(GlCommand::Disable { capability: SCISSOR_TEST });
    commands.push(GlCommand::BindFramebuffer { target: READ_FRAMEBUFFER, framebuffer: source });
    commands.push(
        GlCommand::BindFramebuffer { target: DRAW_FRAMEBUFFER, framebuffer: WINDOW_FRAMEBUFFER_ID },
    );
    commands.push(
        GlCommand::BlitFramebuffer {
            src_x0: 0,
            src_y0: 0,
            src_x1: width,
            src_y1: height,
            dst_x0: 0,
            dst_y0: 0,
            dst_x1: width,
            dst_y1: height,
            mask: COLOR_BUFFER_BIT,
            filter: NEAREST,
        },
    );
    assert(commands@ =~= blit_commands(source, width, height));
    commands
}

/// Executable form of [`allocation_commands`].
pub fn build_allocation_commands(
    format: u32,
    texture: u32,
    framebuffer: u32,
    width: i32,
    height: i32,
) -> (commands: Vec<GlCommand>)
    ensures
        commands@ == allocation_commands(format, texture, framebuffer, width, height),
{
    let mut commands: Vec<GlCommand> = Vec::new();
    commands.push(GlCommand::BindFramebuffer { target: FRAMEBUFFER, framebuffer });
    commands.push(GlCommand::BindTexture { target: TEXTURE_2D, texture });
    commands.push(
        GlCommand::TexParameteri {
            target: TEXTURE_2D,
            name: TEXTURE_MIN_FILTER,
            value: NEAREST as i32,
        },
    );
    commands.push(
        GlCommand::TexParameteri {
            target: TEXTURE_2D,
            name: TEXTURE_MAG_FILTER,
            value: NEAREST as i32,
        },
    );
    commands.push(
        GlCommand::TexParameteri {
            target: TEXTURE_2D,
            name: TEXTURE_WRAP_S,
            value: CLAMP_TO_EDGE as i32,
        },
    );
    commands.push(
        GlCommand::TexParameteri {
            target: TEXTURE_2D,
            name: TEXTURE_WRAP_T,
            value: CLAMP_TO_EDGE as i32,
        },
    );
    commands.push(
        GlCommand::TexImage2D {
            target: TEXTURE_2D,
            level: 0,
            internal_format: #[verifier::truncate] (format as i32),
            width,
            height,
            border: 0,
            format: RGBA,
            kind: UNSIGNED_BYTE,
        },
    );
    commands.push(GlCommand::BindTexture { target: TEXTURE_2D, texture: 0 });
    commands.push(
        GlCommand::FramebufferTexture2D {
            target: FRAMEBUFFER,
            attachment: COLOR_ATTACHMENT0,
            texture_target: TEXTURE_2D,
            texture,
            level: 0,
        },
    );
    assert(commands@ =~= allocation_commands(format, texture, framebuffer, width, height));
    commands
}

/// Executable form of [`deletion_commands`].
pub fn build_deletion_commands(objects: FlutterOpenGLBackingStoreFramebuffer) -> (commands: Vec<
    GlCommand,
>)
    ensures
        commands@ == deletion_commands(objects),
{
    let mut commands: Vec<GlCommand> = Vec::new();
    commands.push(GlCommand::DeleteFramebuffers { framebuffer: objects.framebuffer_id });
    commands.push(GlCommand::DeleteTextures { texture: objects.texture_id });
    assert(commands@ =~= deletion_commands(objects));
    commands
}

/// Answers the engine's compositor callbacks for one window.
#[derive(Clone, Copy, Debug, PartialEq, Eq, Structural)]
pub struct SctkCompositorHandler {
    format: u32,
}

impl SctkCompositorHandler {
    /// Pixel format of the backing stores that this handler creates.
    pub closed spec fn spec_format(&self) -> u32 {
        self.format
    }

    /// A handler that creates backing stores with 8 bits for each of red,
    /// green, blue and alpha.
    pub fn new() -> (handler: SctkCompositorHandler)
        ensures
            handler.spec_format() == RGBA8,
    {
        SctkCompositorHandler { format: RGBA8 }
    }

    #[verifier::when_used_as_spec(spec_format)]
    pub fn format(&self) -> (format: u32)
        ensures
            format == self.spec_format(),
    {
        self.format
    }

    /// Prepares an empty frame. The window is asked first; if it agrees the
    /// context is made current, and the calls that clear the window to
    /// transparent black are returned. The caller issues them and then calls
    /// [`SctkCompositorHandler::finish_present`].
    pub fn clear<C: GraphicsContext>(
        &self,
        window: &mut FrameSizeNegotiator,
        context: &mut C,
    ) -> (outcome: Result<Vec<GlCommand>, CompositorPresentError>)
        ensures
            meets_preparation(
                empty_frame_preparation(old(window)@),
                outcome,
                old(window)@,
                final(window)@,
                *old(context),
                *final(context),
            ),
    {
        if !window.on_empty_frame_generated() {
            return Err(CompositorPresentError::PresentFailed(PresentFailure::EmptyFrameRejected));
        }
        if !context.make_current() {
            return Err(CompositorPresentError::PresentFailed(PresentFailure::ContextNotCurrent));
        }
        Ok(build_clear_commands())
    }

    /// Prepares a frame for the window. A frame without layers is cleared,
    /// see [`SctkCompositorHandler::clear`]. Otherwise the frame has one
    /// layer at the origin: its framebuffer is looked up, the window is asked
    /// whether a frame of the layer's size may be shown, the context is made
    /// current, and the calls that copy the layer into the window's
    /// framebuffer are returned. The caller issues them and then calls
    /// [`SctkCompositorHandler::finish_present`].
    pub fn present_view<C: GraphicsContext>(
        &self,
        info: &FlutterPresentViewInfo,
        window: &mut FrameSizeNegotiator,
        context: &mut C,
    ) -> (outcome: Result<Vec<GlCommand>, CompositorPresentError>)
        requires
            info.is_presentable(),
        ensures
            meets_preparation(
                frame_preparation(info.layers@, old(window)@),
                outcome,
                old(window)@,
                final(window)@,
                *old(context),
                *final(context),
            ),
    {
        if info.layers.len() == 0 {
            return self.clear(window, context);
        }
        let layer = info.layers[0];
        let source_id = match layer.content.get_opengl_backing_store_framebuffer_name() {
            Some(name) => name,
            None => {
                return Err(
                    CompositorPresentError::PresentFailed(PresentFailure::NoFramebufferName),
                );
            },
        };
        let frame_size = layer.size.frame_size();
        if !window.on_frame_generated(frame_size) {
            return Err(CompositorPresentError::PresentFailed(PresentFailure::FrameRejected));
        }
        if !context.make_current() {
            return Err(CompositorPresentError::PresentFailed(PresentFailure::ContextNotCurrent));
        }
        Ok(build_blit_commands(source_id, layer.size.gl_width(), layer.size.gl_height()))
    }

    /// Shows what was prepared: swaps the buffers and tells the window that
    /// its frame is on screen. If the swap fails the window is not told.
    /// Whether the swap succeeds is for the native layer to say, except that
    /// it cannot without the context's handle.
    pub fn finish_present<C: GraphicsContext>(
        &self,
        window: &mut FrameSizeNegotiator,
        context: &mut C,
    ) -> (outcome: Result<(), CompositorPresentError>)
        ensures
            final(context).holds_context() == old(context).holds_context(),
            match outcome {
                Ok(_) => {
                    &&& old(context).holds_context()
                    &&& final(window)@ == old(window)@.after_frame_presented()
                },
                Err(error) => {
                    &&& error == CompositorPresentError::PresentFailed(PresentFailure::SwapFailed)
                    &&& final(window)@ == old(window)@
                },
            },
    {
        if !context.present() {
            return Err(CompositorPresentError::PresentFailed(PresentFailure::SwapFailed));
        }
        window.on_frame_presented();
        Ok(())
    }

    /// Creates a backing store of the size that `config` asks for, out of the
    /// texture and the framebuffer that the caller has generated and named in
    /// `objects`. Returns the store, which from now on belongs to the engine,
    /// and the calls that allocate the texture and attach it to the
    /// framebuffer. This always succeeds.
    pub fn create_backing_store(
        &self,
        config: FlutterBackingStoreConfig,
        objects: FlutterOpenGLBackingStoreFramebuffer,
    ) -> (outcome: Result<BackingStoreAllocation, CompositorCreateBackingStoreError>)
        ensures
            outcome matches Ok(allocation) && allocation.backing_store == framebuffer_store(
                self.spec_format(),
                objects,
            ) && allocation.commands@ == allocation_commands(
                self.spec_format(),
                objects.texture_id,
                objects.framebuffer_id,
                config.size.spec_gl_width(),
                config.size.spec_gl_height(),
            ),
    {
        let commands = build_allocation_commands(
            self.format,
            objects.texture_id,
            objects.framebuffer_id,
            config.size.gl_width(),
            config.size.gl_height(),
        );
        let framebuffer = FlutterOpenGLFramebuffer::new(self.format, objects);
        let opengl_backing_store = FlutterOpenGLBackingStore::Framebuffer(framebuffer);
        let description = FlutterBackingStoreDescription::OpenGL(opengl_backing_store);
        let backing_store = FlutterBackingStore::new(description);
        Ok(BackingStoreAllocation { backing_store, commands })
    }

    /// Takes a backing store back from the engine. A store that is not an
    /// OpenGL framebuffer is refused, and no call is asked for. Otherwise the
    /// calls that delete its framebuffer and its texture are returned, and
    /// the store is gone.
    pub fn collect_backing_store(&self, backing_store: FlutterBackingStore) -> (outcome: Result<
        Vec<GlCommand>,
        CompositorCollectBackingStoreError,
    >)
        ensures
            match collect_failure(backing_store) {
                Some(failure) => outcome == Err::<Vec<GlCommand>, _>(
                    CompositorCollectBackingStoreError::CollectFailed(failure),
                ),
                None => outcome matches Ok(commands) && commands@ == deletion_commands(
                    backing_store.opengl_framebuffer()->0.user_data,
                ),
            },
            collect_failure(backing_store) is Some ==> requested_commands(outcome).len() == 0,
    {
        let opengl_backing_store = match backing_store.description {
            FlutterBackingStoreDescription::OpenGL(opengl_backing_store) => opengl_backing_store,
            _ => {
                return Err(
                    CompositorCollectBackingStoreError::CollectFailed(CollectFailure::NotOpenGL),
                );
            },
        };
        let framebuffer = match opengl_backing_store {
            FlutterOpenGLBackingStore::Framebuffer(framebuffer) => framebuffer,
            _ => {
                return Err(
                    CompositorCollectBackingStoreError::CollectFailed(
                        CollectFailure::NotFramebuffer,
                    ),
                );
            },
        };
        Ok(build_deletion_commands(framebuffer.user_data))
    }
}

/// A frame without layers is never copied from anywhere: if the window
/// accepts it, the calls that show it are the two that clear the window to
/// transparent black; if not, there are no calls at all.
pub proof fn lemma_empty_frame_is_cleared_not_blitted(window: Negotiation)
    ensures
        frame_preparation(Seq::empty(), window) == empty_frame_preparation(window),
        frame_preparation(Seq::empty(), window) matches Preparation::Ready(commands) ==> commands
            == clear_commands(),
        clear_commands().len() == 2,
        clear_commands()[0] == (GlCommand::ClearColor { red: 0, green: 0, blue: 0, alpha: 0 }),
        clear_commands()[1] == (GlCommand::Clear { mask: ALL_BUFFERS }),
        forall|i: int| 0 <= i < clear_commands().len() ==> !(#[trigger] clear_commands()[i]).is_blit(),
{
}

/// A layer is copied by exactly one call, the last; it is made with the
/// scissor test off, reads from the layer's framebuffer and writes to the
/// window's.
pub proof fn lemma_blit_shape(source: u32, width: i32, height: i32)
    ensures
        blit_commands(source, width, height).len() == 4,
        blit_commands(source, width, height)[0] == (GlCommand::Disable { capability: SCISSOR_TEST }),
        blit_commands(source, width, height)[1] == (GlCommand::BindFramebuffer {
            target: READ_FRAMEBUFFER,
            framebuffer: source,
        }),
        blit_commands(source, width, height)[2] == (GlCommand::BindFramebuffer {
            target: DRAW_FRAMEBUFFER,
            framebuffer: 0,
        }),
        blit_commands(source, width, height)[3].is_blit(),
        forall|i: int| 0 <= i < 3 ==> !(#[trigger] blit_commands(source, width, height)[i]).is_blit(),
{
}

/// A backing store created for a size, and shown as a layer of that size,
/// is copied whole: source and destination rectangle both start at the
/// origin and both have the width and height that the texture was
/// allocated with. These are the width and height asked for, as long as
/// they fit OpenGL's signed 32-bit sizes.
pub proof fn lemma_blit_covers_backing_store(
    format: u32,
    config: FlutterBackingStoreConfig,
    objects: FlutterOpenGLBackingStoreFramebuffer,
)
    ensures
        ({
            let store = framebuffer_store(format, objects);
            let layer = FlutterLayer {
                content: FlutterLayerContent::BackingStore(store),
                offset: FlutterPoint { x: 0, y: 0 },
                size: config.size,
            };
            let width = config.size.spec_gl_width();
            let height = config.size.spec_gl_height();
            &&& layer.content.spec_framebuffer_name() == Some(objects.framebuffer_id)
            &&& forall|window: Negotiation|
                window.accepts_frame(config.size.spec_frame_size()) ==> #[trigger] frame_preparation(
                    seq![layer],
                    window,
                ) == Preparation::Ready(blit_commands(objects.framebuffer_id, width, height))
            &&& blit_commands(objects.framebuffer_id, layer.size.spec_gl_width(), layer.size.spec_gl_height())[3]
                == (GlCommand::BlitFramebuffer {
                src_x0: 0,
                src_y0: 0,
                src_x1: width,
                src_y1: height,
                dst_x0: 0,
                dst_y0: 0,
                dst_x1: width,
                dst_y1: height,
                mask: COLOR_BUFFER_BIT,
                filter: NEAREST,
            })
            &&& allocation_commands(
                format,
                objects.texture_id,
                objects.framebuffer_id,
                width,
                height,
            )[6] == (GlCommand::TexImage2D {
                target: TEXTURE_2D,
                level: 0,
                internal_format: format as i32,
                width,
                height,
                border: 0,
                format: RGBA,
                kind: UNSIGNED_BYTE,
            })
            &&& 0 <= config.size.width <= i32::MAX ==> width == config.size.width
            &&& 0 <= config.size.height <= i32::MAX ==> height == config.size.height
        }),
{
}

/// A store that is refused leads to no call at all; a store that is
/// collected leads to the two deletions of its own objects and nothing else.
pub proof fn lemma_collect_deletes_own_objects_only(store: FlutterBackingStore)
    ensures
        collect_failure(store) is None <==> store.opengl_framebuffer() is Some,
        collect_failure(store) is Some ==> requested_commands(
            Err::<Vec<GlCommand>, CompositorCollectBackingStoreError>(
                CompositorCollectBackingStoreError::CollectFailed(collect_failure(store)->0),
            ),
        ) == Seq::<GlCommand>::empty(),
        store.opengl_framebuffer() matches Some(framebuffer) ==> {
            let commands = deletion_commands(framebuffer.user_data);
            &&& commands.len() == 2
            &&& commands[0] == (GlCommand::DeleteFramebuffers {
                framebuffer: framebuffer.user_data.framebuffer_id,
            })
            &&& commands[1] == (GlCommand::DeleteTextures { texture: framebuffer.user_data.texture_id })
        },
{
}

} // verus!
