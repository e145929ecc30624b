use vstd::prelude::*;

use crate::arena::{BufRange, ByteArena};
use crate::assets::{
    MeshHandle, MeshParams, Rect, RenderTextureParams, ShaderHandle, ShaderParams, TextureHandle,
    TextureParams,
};
use crate::surface::{RenderTextureHandle, Scissor, SurfaceHandle, SurfaceSetup};

verus! {

/// Where the initial contents of a mesh lie in the arena.
#[derive(Clone, Copy, Debug, PartialEq, Eq, Structural)]
pub struct MeshBufs {
    pub vertices: BufRange,
    pub indices: BufRange,
}

/// One draw: a shader over the elements `from .. from + len` of a mesh.
#[derive(Clone, Copy, Debug, PartialEq, Eq, Structural)]
pub struct DrawCall {
    pub shader: ShaderHandle,
    pub mesh: MeshHandle,
    pub from: u32,
    pub len: u32,
}

/// A deferred operation on the graphics device. Bulk data stays in the frame's
/// arena; a command holds where it lies.
pub enum Command {
    CreateSurface(SurfaceHandle, SurfaceSetup),
    DeleteSurface(SurfaceHandle),
    CreateShader(ShaderHandle, ShaderParams, String, String),
    DeleteShader(ShaderHandle),
    CreateMesh(MeshHandle, MeshParams, Option<MeshBufs>),
    UpdateVertexBuffer(MeshHandle, usize, BufRange),
    UpdateIndexBuffer(MeshHandle, usize, BufRange),
    DeleteMesh(MeshHandle),
    CreateTexture(TextureHandle, TextureParams, Option<BufRange>),
    UpdateTexture(TextureHandle, Rect, BufRange),
    DeleteTexture(TextureHandle),
    CreateRenderTexture(RenderTextureHandle, RenderTextureParams),
    DeleteRenderTexture(RenderTextureHandle),
    SetScissor(SurfaceHandle, Scissor),
    Draw(SurfaceHandle, DrawCall),
}

/// One frame of deferred work: commands in the order they were recorded, and
/// the bytes they refer to.
pub struct Frame {
    pub cmds: Vec<Command>,
    pub bufs: ByteArena,
}

impl Frame {
    pub fn with_capacity(capacity: usize) -> (r: Frame)
        ensures
            r.cmds@.len() == 0,
            r.bufs@.len() == 0,
    {
        Frame { cmds: Vec::new(), bufs: ByteArena::with_capacity(capacity) }
    }

    pub open spec fn is_empty(&self) -> bool {
        self.cmds@.len() == 0 && self.bufs@.len() == 0
    }

    /// Appends `cmd` after every command recorded so far.
    pub fn push(&mut self, cmd: Command)
        ensures
            final(self).cmds@ == old(self).cmds@.push(cmd),
            final(self).bufs@ == old(self).bufs@,
    {
        self.cmds.push(cmd);
    }

    /// Forgets the commands and the bytes; storage is kept.
    pub fn clear(&mut self)
        ensures
            final(self).is_empty(),
    {
        self.cmds.clear();
        self.bufs.clear();
    }
}

/// Two frames: producers record into the front one while the device reads the
/// back one. A swap exchanges their roles.
pub struct DoubleBuf {
    front: Frame,
    back: Frame,
}

impl DoubleBuf {
    pub closed spec fn front(&self) -> Frame {
        self.front
    }

    pub closed spec fn back(&self) -> Frame {
        self.back
    }

    pub fn new(front: Frame, back: Frame) -> (r: DoubleBuf)
        ensures
            r.front() == front,
            r.back() == back,
    {
        DoubleBuf { front, back }
    }

    /// Exchanges the roles of the two frames.
    pub fn swap(&mut self)
        ensures
            final(self).front() == old(self).back(),
            final(self).back() == old(self).front(),
    {
        std::mem::swap(&mut self.front, &mut self.back);
    }

    /// The frame that producers record into.
    pub fn write(&mut self) -> (r: &mut Frame)
        ensures
            *r == old(self).front(),
            final(self).front() == *final(r),
            final(self).back() == old(self).back(),
    {
        &mut self.front
    }

    /// The frame that the device reads, stable until the next swap.
    pub fn write_back(&mut self) -> (r: &mut Frame)
        ensures
            *r == old(self).back(),
            final(self).back() == *final(r),
            final(self).front() == old(self).front(),
    {
        &mut self.back
    }

    pub fn front_frame(&self) -> (r: &Frame)
        ensures
            *r == self.front(),
    {
        &self.front
    }

    pub fn back_frame(&self) -> (r: &Frame)
        ensures
            *r == self.back(),
    {
        &self.back
    }
}

} // verus!
