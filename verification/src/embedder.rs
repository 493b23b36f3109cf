//! The values that cross the boundary to the engine's compositor: sizes,
//! backing stores, layers. Sizes and offsets are held in whole pixels; the
//! caller rounds the engine's fractional values to the nearest whole number.

use vstd::prelude::*;
use crate::frame::FrameSize;
use crate::view::FlutterViewId;

verus! {

/// `value` cut to the range of `u32`.
pub open spec fn saturate_u32(value: int) -> u32 {
    if value < 0 {
        0u32
    } else if value > u32::MAX {
        u32::MAX
    } else {
        value as u32
    }
}

/// `value` cut to the range of `i32`.
pub open spec fn saturate_i32(value: int) -> i32 {
    if value < i32::MIN {
        i32::MIN
    } else if value > i32::MAX {
        i32::MAX
    } else {
        value as i32
    }
}

/// Converts to `u32`; values outside its range become the nearest bound.
pub fn saturating_u32(value: i64) -> (cut: u32)
    ensures
        cut == saturate_u32(value as int),
{
    if value < 0 {
        0
    } else if value > 0xFFFF_FFFF {
        0xFFFF_FFFF
    } else {
        value as u32
    }
}

/// Converts to `i32`; values outside its range become the nearest bound.
pub fn saturating_i32(value: i64) -> (cut: i32)
    ensures
        cut == saturate_i32(value as int),
{
    if value < -0x8000_0000 {
        -0x8000_0000
    } else if value > 0x7FFF_FFFF {
        0x7FFF_FFFF
    } else {
        value as i32
    }
}

/// A size in whole pixels.
#[derive(Clone, Copy, Debug, PartialEq, Eq, Structural)]
pub struct FlutterSize {
    pub width: i64,
    pub height: i64,
}

impl FlutterSize {
    /// The size as a frame size: each dimension cut to the range of `u32`.
    pub open spec fn spec_frame_size(self) -> FrameSize {
        FrameSize {
            width: saturate_u32(self.width as int),
            height: saturate_u32(self.height as int),
        }
    }

    /// The width as OpenGL takes it: cut to the range of `i32`.
    pub open spec fn spec_gl_width(self) -> i32 {
        saturate_i32(self.width as int)
    }

    /// The height as OpenGL takes it: cut to the range of `i32`.
    pub open spec fn spec_gl_height(self) -> i32 {
        saturate_i32(self.height as int)
    }

    #[verifier::when_used_as_spec(spec_frame_size)]
    pub fn frame_size(self) -> (size: FrameSize)
        ensures
            size == self.spec_frame_size(),
    {
        FrameSize { width: saturating_u32(self.width), height: saturating_u32(self.height) }
    }

    #[verifier::when_used_as_spec(spec_gl_width)]
    pub fn gl_width(self) -> (width: i32)
        ensures
            width == self.spec_gl_width(),
    {
        saturating_i32(self.width)
    }

    #[verifier::when_used_as_spec(spec_gl_height)]
    pub fn gl_height(self) -> (height: i32)
        ensures
            height == self.spec_gl_height(),
    {
        saturating_i32(self.height)
    }
}

/// A position in whole pixels.
#[derive(Clone, Copy, Debug, PartialEq, Eq, Structural)]
pub struct FlutterPoint {
    pub x: i64,
    pub y: i64,
}

impl FlutterPoint {
    pub open spec fn is_origin(self) -> bool {
        self.x == 0 && self.y == 0
    }
}

/// What the engine asks for when it wants a backing store.
#[derive(Clone, Copy, Debug, PartialEq, Eq, Structural)]
pub struct FlutterBackingStoreConfig {
    pub size: FlutterSize,
}

/// The pair of GPU objects behind a framebuffer backing store. It travels
/// with the store to the engine and comes back when the store is collected.
#[derive(Clone, Copy, Debug, PartialEq, Eq, Structural)]
pub struct FlutterOpenGLBackingStoreFramebuffer {
    pub texture_id: u32,
    pub framebuffer_id: u32,
}

/// A framebuffer that the engine renders into.
#[derive(Clone, Copy, Debug, PartialEq, Eq, Structural)]
pub struct FlutterOpenGLFramebuffer {
    /// Pixel format of the colour attachment.
    pub format: u32,
    pub user_data: FlutterOpenGLBackingStoreFramebuffer,
}

impl FlutterOpenGLFramebuffer {
    /// The OpenGL name of the framebuffer.
    pub open spec fn spec_name(self) -> u32 {
        self.user_data.framebuffer_id
    }

    pub fn new(format: u32, user_data: FlutterOpenGLBackingStoreFramebuffer) -> (framebuffer:
        FlutterOpenGLFramebuffer)
        ensures
            framebuffer == (FlutterOpenGLFramebuffer { format, user_data }),
    {
        FlutterOpenGLFramebuffer { format, user_data }
    }

    #[verifier::when_used_as_spec(spec_name)]
    pub fn name(self) -> (name: u32)
        ensures
            name == self.spec_name(),
    {
        self.user_data.framebuffer_id
    }
}

/// A texture that the engine renders into.
#[derive(Clone, Copy, Debug, PartialEq, Eq, Structural)]
pub struct FlutterOpenGLTexture {
    pub target: u32,
    pub name: u32,
    pub format: u32,
}

/// The two kinds of OpenGL backing store.
#[derive(Clone, Copy, Debug, PartialEq, Eq, Structural)]
pub enum FlutterOpenGLBackingStore {
    Texture(FlutterOpenGLTexture),
    Framebuffer(FlutterOpenGLFramebuffer),
}

/// What a backing store is made of.
#[derive(Clone, Copy, Debug, PartialEq, Eq, Structural)]
pub enum FlutterBackingStoreDescription {
    OpenGL(FlutterOpenGLBackingStore),
    Software,
    Metal,
    Vulkan,
}

/// A render target handed to the engine.
#[derive(Clone, Copy, Debug, PartialEq, Eq, Structural)]
pub struct FlutterBackingStore {
    pub description: FlutterBackingStoreDescription,
}

impl FlutterBackingStore {
    pub fn new(description: FlutterBackingStoreDescription) -> (store: FlutterBackingStore)
        ensures
            store.description == description,
    {
        FlutterBackingStore { description }
    }

    /// The framebuffer behind the store, if the store is an OpenGL framebuffer.
    pub open spec fn opengl_framebuffer(self) -> Option<FlutterOpenGLFramebuffer> {
        match self.description {
            FlutterBackingStoreDescription::OpenGL(FlutterOpenGLBackingStore::Framebuffer(framebuffer)) =>
                Some(framebuffer),
            _ => None,
        }
    }
}

/// What a layer shows.
#[derive(Clone, Copy, Debug, PartialEq, Eq, Structural)]
pub enum FlutterLayerContent {
    BackingStore(FlutterBackingStore),
    PlatformView(i64),
}

impl FlutterLayerContent {
    /// The name of the framebuffer that holds the layer's pixels, if the
    /// layer is an OpenGL framebuffer backing store.
    pub open spec fn spec_framebuffer_name(self) -> Option<u32> {
        match self {
            FlutterLayerContent::BackingStore(store) => match store.opengl_framebuffer() {
                Some(framebuffer) => Some(framebuffer.spec_name()),
                None => None,
            },
            FlutterLayerContent::PlatformView(_) => None,
        }
    }

    #[verifier::when_used_as_spec(spec_framebuffer_name)]
    pub fn get_opengl_backing_store_framebuffer_name(self) -> (name: Option<u32>)
        ensures
            name == self.spec_framebuffer_name(),
    {
        match self {
            FlutterLayerContent::BackingStore(store) => match store.description {
                FlutterBackingStoreDescription::OpenGL(
                    FlutterOpenGLBackingStore::Framebuffer(framebuffer),
                ) => Some(framebuffer.name()),
                _ => None,
            },
            FlutterLayerContent::PlatformView(_) => None,
        }
    }
}

/// One layer of a frame.
#[derive(Clone, Copy, Debug, PartialEq, Eq, Structural)]
pub struct FlutterLayer {
    pub content: FlutterLayerContent,
    pub offset: FlutterPoint,
    pub size: FlutterSize,
}

/// A frame of a view, ready to be shown.
#[derive(Clone, Debug, PartialEq, Eq)]
pub struct FlutterPresentViewInfo {
    pub view_id: FlutterViewId,
    pub layers: Vec<FlutterLayer>,
}

impl FlutterPresentViewInfo {
    /// The frames this shell can show: those without layers, and those with
    /// one layer that starts at the origin.
    pub open spec fn is_presentable(&self) -> bool {
        self.layers@.len() == 0 || (self.layers@.len() == 1 && self.layers@[0].offset.is_origin())
    }

    /// Executable form of [`FlutterPresentViewInfo::is_presentable`].
    pub fn presentable(&self) -> (yes: bool)
        ensures
            yes == self.is_presentable(),
    {
        if self.layers.len() == 0 {
            true
        } else if self.layers.len() == 1 {
            self.layers[0].offset.x == 0 && self.layers[0].offset.y == 0
        } else {
            false
        }
    }
}

} // verus!
