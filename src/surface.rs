use vstd::prelude::*;

use crate::handle::Handle;

verus! {

/// The most color attachments a surface's framebuffer can have.
pub const MAX_FRAMEBUFFER_ATTACHMENTS: usize = 8;

pub type SurfaceHandle = Handle;

pub type RenderTextureHandle = Handle;

/// An RGBA color with eight bits per channel.
#[derive(Clone, Copy, Debug, PartialEq, Eq, Structural)]
pub struct Color {
    pub r: u8,
    pub g: u8,
    pub b: u8,
    pub a: u8,
}

impl Color {
    pub fn black() -> (r: Color)
        ensures
            r == (Color { r: 0, g: 0, b: 0, a: 255 }),
    {
        Color { r: 0, g: 0, b: 0, a: 255 }
    }

    pub fn white() -> (r: Color)
        ensures
            r == (Color { r: 255, g: 255, b: 255, a: 255 }),
    {
        Color { r: 255, g: 255, b: 255, a: 255 }
    }
}

/// Depth value of the far plane; depths are fixed-point, `0` being the near plane.
pub const DEPTH_FAR: u16 = 0xffff;

/// Errors found when a surface is set up.
#[derive(Clone, Copy, Debug, PartialEq, Eq, Structural)]
pub enum SurfaceError {
    TooManyColorAttachments,
}

/// The setup of a surface: a named, orderable bucket of draw calls bound to a
/// render target, with its clear values.
///
/// Surfaces are ranked by `order`. Draw calls of a surface in `sequence` mode are
/// executed in the order they were submitted.
#[derive(Clone, Copy, Debug)]
pub struct SurfaceSetup {
    pub colors: [Option<RenderTextureHandle>; MAX_FRAMEBUFFER_ATTACHMENTS],
    pub depth_stencil: Option<RenderTextureHandle>,
    pub clear_color: Option<Color>,
    pub clear_depth: Option<u16>,
    pub clear_stencil: Option<i32>,
    pub order: u64,
    pub sequence: bool,
}

impl Default for SurfaceSetup {
    /// Draws to the window's framebuffer, clears color to black and depth to the
    /// far plane, at order zero, sorted.
    fn default() -> (r: SurfaceSetup)
        ensures
            forall|i: int| 0 <= i < MAX_FRAMEBUFFER_ATTACHMENTS ==> r.colors[i] is None,
            r.depth_stencil is None,
            r.clear_color == Some(Color { r: 0, g: 0, b: 0, a: 255 }),
            r.clear_depth == Some(DEPTH_FAR),
            r.clear_stencil is None,
            r.order == 0,
            !r.sequence,
    {
        SurfaceSetup {
            colors: [None; MAX_FRAMEBUFFER_ATTACHMENTS],
            depth_stencil: None,
            clear_color: Some(Color::black()),
            clear_depth: Some(DEPTH_FAR),
            clear_stencil: None,
            order: 0,
            sequence: false,
        }
    }
}

impl SurfaceSetup {
    /// Sets the color attachments and the optional depth-stencil attachment of
    /// the surface's framebuffer. With no attachment the window's framebuffer is
    /// used. At most `MAX_FRAMEBUFFER_ATTACHMENTS - 1` colors are accepted.
    pub fn set_attachments(
        &mut self,
        colors: &[RenderTextureHandle],
        depth_stencil: Option<RenderTextureHandle>,
    ) -> (r: Result<(), SurfaceError>)
        ensures
            colors@.len() >= MAX_FRAMEBUFFER_ATTACHMENTS <==> r is Err,
            r is Err ==> *final(self) == *old(self),
            r is Ok ==> {
                &&& forall|i: int|
                    0 <= i < MAX_FRAMEBUFFER_ATTACHMENTS ==> final(self).colors[i] == if i
                        < colors@.len() {
                        Some(colors@[i])
                    } else {
                        None
                    }
                &&& final(self).depth_stencil == depth_stencil
                &&& final(self).clear_color == old(self).clear_color
                &&& final(self).clear_depth == old(self).clear_depth
                &&& final(self).clear_stencil == old(self).clear_stencil
                &&& final(self).order == old(self).order
                &&& final(self).sequence == old(self).sequence
            },
    {
        if colors.len() >= MAX_FRAMEBUFFER_ATTACHMENTS {
            return Err(SurfaceError::TooManyColorAttachments);
        }
        let mut i: usize = 0;
        while i < MAX_FRAMEBUFFER_ATTACHMENTS
            invariant
                colors@.len() < MAX_FRAMEBUFFER_ATTACHMENTS,
                i <= MAX_FRAMEBUFFER_ATTACHMENTS,
                forall|j: int|
                    0 <= j < i ==> self.colors[j] == if j < colors@.len() {
                        Some(colors@[j])
                    } else {
                        None
                    },
                self.depth_stencil == old(self).depth_stencil,
                self.clear_color == old(self).clear_color,
                self.clear_depth == old(self).clear_depth,
                self.clear_stencil == old(self).clear_stencil,
                self.order == old(self).order,
                self.sequence == old(self).sequence,
            decreases MAX_FRAMEBUFFER_ATTACHMENTS - i,
        {
            if i < colors.len() {
                self.colors[i] = Some(colors[i]);
            } else {
                self.colors[i] = None;
            }
            i = i + 1;
        }
        self.depth_stencil = depth_stencil;
        Ok(())
    }

    /// Sets the rank of the surface among surfaces.
    pub fn set_order(&mut self, order: u64)
        ensures
            *final(self) == (SurfaceSetup { order, ..*old(self) }),
    {
        self.order = order;
    }

    /// Sets what is cleared when the surface begins, and to which values.
    pub fn set_clear(&mut self, color: Option<Color>, depth: Option<u16>, stencil: Option<i32>)
        ensures
            *final(self) == (SurfaceSetup {
                clear_color: color,
                clear_depth: depth,
                clear_stencil: stencil,
                ..*old(self)
            }),
    {
        self.clear_color = color;
        self.clear_depth = depth;
        self.clear_stencil = stencil;
    }

    /// Sets whether the surface's draw calls keep their submission order.
    pub fn set_sequence(&mut self, sequence: bool)
        ensures
            *final(self) == (SurfaceSetup { sequence, ..*old(self) }),
    {
        self.sequence = sequence;
    }
}

/// The scissor box, in window coordinates: position and size. While it is
/// enabled only pixels inside it are drawn.
#[derive(Clone, Copy, Debug, PartialEq, Eq)]
pub enum Scissor {
    Enable((u16, u16), (u16, u16)),
    Disable,
}

/// The viewport of a surface, in window coordinates.
#[derive(Clone, Copy, Debug, PartialEq, Eq)]
pub struct Viewport {
    pub position: (u16, u16),
    pub size: (u16, u16),
}

} // verus!
