//! The OpenGL calls that the shell asks for, as values. The library decides
//! which calls are made and with which arguments; issuing them is left to
//! the caller that owns the loaded OpenGL functions.

use vstd::prelude::*;

verus! {

pub const TEXTURE_2D: u32 = 0x0DE1;

pub const NEAREST: u32 = 0x2600;

pub const CLAMP_TO_EDGE: u32 = 0x812F;

pub const RGBA8: u32 = 0x8058;

pub const RGBA: u32 = 0x1908;

pub const UNSIGNED_BYTE: u32 = 0x1401;

pub const FRAMEBUFFER: u32 = 0x8D40;

pub const READ_FRAMEBUFFER: u32 = 0x8CA8;

pub const DRAW_FRAMEBUFFER: u32 = 0x8CA9;

pub const COLOR_ATTACHMENT0: u32 = 0x8CE0;

pub const TEXTURE_MAG_FILTER: u32 = 0x2800;

pub const TEXTURE_MIN_FILTER: u32 = 0x2801;

pub const TEXTURE_WRAP_S: u32 = 0x2802;

pub const TEXTURE_WRAP_T: u32 = 0x2803;

pub const SCISSOR_TEST: u32 = 0x0C11;

pub const DEPTH_BUFFER_BIT: u32 = 0x0100;

pub const STENCIL_BUFFER_BIT: u32 = 0x0400;

pub const COLOR_BUFFER_BIT: u32 = 0x4000;

/// Colour, depth and stencil buffer together.
pub const ALL_BUFFERS: u32 = 0x4500;

/// The framebuffer that the window system shows.
pub const WINDOW_FRAMEBUFFER_ID: u32 = 0;

/// One OpenGL call with its arguments. Colour channels are given in 255ths.
#[derive(Clone, Copy, Debug, PartialEq, Eq, Structural)]
pub enum GlCommand {
    ClearColor { red: u8, green: u8, blue: u8, alpha: u8 },
    Clear { mask: u32 },
    Disable { capability: u32 },
    BindFramebuffer { target: u32, framebuffer: u32 },
    BindTexture { target: u32, texture: u32 },
    TexParameteri { target: u32, name: u32, value: i32 },
    /// Allocates storage without initial pixels.
    TexImage2D {
        target: u32,
        level: i32,
        internal_format: i32,
        width: i32,
        height: i32,
        border: i32,
        format: u32,
        kind: u32,
    },
    FramebufferTexture2D { target: u32, attachment: u32, texture_target: u32, texture: u32, level: i32 },
    BlitFramebuffer {
        src_x0: i32,
        src_y0: i32,
        src_x1: i32,
        src_y1: i32,
        dst_x0: i32,
        dst_y0: i32,
        dst_x1: i32,
        dst_y1: i32,
        mask: u32,
        filter: u32,
    },
    DeleteFramebuffers { framebuffer: u32 },
    DeleteTextures { texture: u32 },
}

impl GlCommand {
    /// Whether the call copies pixels between framebuffers.
    pub open spec fn is_blit(self) -> bool {
        self is BlitFramebuffer
    }

    /// Whether the call frees a GPU object.
    pub open spec fn is_deletion(self) -> bool {
        self is DeleteFramebuffers || self is DeleteTextures
    }
}

/// The mask of all three buffers is the union of the single masks.
pub proof fn lemma_all_buffers()
    ensures
        ALL_BUFFERS == COLOR_BUFFER_BIT | DEPTH_BUFFER_BIT | STENCIL_BUFFER_BIT,
{
    assert(0x4500u32 == 0x4000u32 | 0x0100u32 | 0x0400u32) by (bit_vector);
}

} // verus!
