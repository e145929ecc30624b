use vstd::prelude::*;

use crate::arena::range_within;
use crate::assets::{MeshParams, RenderTextureParams, TextureParams};
use crate::frame::{Command, DrawCall, Frame};
use crate::handle::Handle;
use crate::surface::{Scissor, SurfaceHandle, SurfaceSetup};
use crate::table::{index_taken, ObjectTable};

verus! {

/// A draw as the device executes it: on which surface, under which scissor.
#[derive(Clone, Copy, Debug, PartialEq, Eq)]
pub struct DrawRecord {
    pub surface: SurfaceHandle,
    pub scissor: Scissor,
    pub call: DrawCall,
}

/// What the device knows of the objects it created, and of the frame it last
/// executed: its draws, in order, and the framebuffer size it was run against.
pub struct DeviceModel {
    pub surfaces: Map<Handle, (SurfaceSetup, Scissor)>,
    pub shaders: Map<Handle, ()>,
    pub meshes: Map<Handle, MeshParams>,
    pub textures: Map<Handle, TextureParams>,
    pub render_textures: Map<Handle, RenderTextureParams>,
    pub draws: Seq<DrawRecord>,
    pub dimensions: (u32, u32),
}

/// The device's state at the start of a frame run against a framebuffer of
/// `dimensions` pixels.
pub open spec fn fresh_frame(m: DeviceModel, dimensions: (u32, u32)) -> DeviceModel {
    DeviceModel { draws: Seq::empty(), dimensions, ..m }
}

/// The state after `cmd`, over an arena of `n` bytes; `None` when `cmd` names an
/// object the device does not hold, creates one in a slot still in use, or
/// points outside the arena.
pub open spec fn step(m: DeviceModel, cmd: Command, n: nat) -> Option<DeviceModel> {
    match cmd {
        Command::CreateSurface(h, s) => if index_taken(m.surfaces, h.index) {
            None
        } else {
            Some(DeviceModel { surfaces: m.surfaces.insert(h, (s, Scissor::Disable)), ..m })
        },
        Command::DeleteSurface(h) => if m.surfaces.contains_key(h) {
            Some(DeviceModel { surfaces: m.surfaces.remove(h), ..m })
        } else {
            None
        },
        Command::CreateShader(h, _p, _vs, _fs) => if index_taken(m.shaders, h.index) {
            None
        } else {
            Some(DeviceModel { shaders: m.shaders.insert(h, ()), ..m })
        },
        Command::DeleteShader(h) => if m.shaders.contains_key(h) {
            Some(DeviceModel { shaders: m.shaders.remove(h), ..m })
        } else {
            None
        },
        Command::CreateMesh(h, p, bufs) => if index_taken(m.meshes, h.index) || (bufs is Some && !(
        range_within(bufs->Some_0.vertices, n) && range_within(bufs->Some_0.indices, n))) {
            None
        } else {
            Some(DeviceModel { meshes: m.meshes.insert(h, p), ..m })
        },
        Command::UpdateVertexBuffer(h, _o, r) => if m.meshes.contains_key(h) && range_within(r, n) {
            Some(m)
        } else {
            None
        },
        Command::UpdateIndexBuffer(h, _o, r) => if m.meshes.contains_key(h) && range_within(r, n) {
            Some(m)
        } else {
            None
        },
        Command::DeleteMesh(h) => if m.meshes.contains_key(h) {
            Some(DeviceModel { meshes: m.meshes.remove(h), ..m })
        } else {
            None
        },
        Command::CreateTexture(h, p, r) => if index_taken(m.textures, h.index) || (r is Some
            && !range_within(r->Some_0, n)) {
            None
        } else {
            Some(DeviceModel { textures: m.textures.insert(h, p), ..m })
        },
        Command::UpdateTexture(h, _a, r) => if m.textures.contains_key(h) && range_within(r, n) {
            Some(m)
        } else {
            None
        },
        Command::DeleteTexture(h) => if m.textures.contains_key(h) {
            Some(DeviceModel { textures: m.textures.remove(h), ..m })
        } else {
            None
        },
        Command::CreateRenderTexture(h, p) => if index_taken(m.render_textures, h.index) {
            None
        } else {
            Some(DeviceModel { render_textures: m.render_textures.insert(h, p), ..m })
        },
        Command::DeleteRenderTexture(h) => if m.render_textures.contains_key(h) {
            Some(DeviceModel { render_textures: m.render_textures.remove(h), ..m })
        } else {
            None
        },
        Command::SetScissor(h, sc) => if m.surfaces.contains_key(h) {
            Some(DeviceModel { surfaces: m.surfaces.insert(h, (m.surfaces[h].0, sc)), ..m })
        } else {
            None
        },
        Command::Draw(h, dc) => if m.surfaces.contains_key(h) && m.shaders.contains_key(dc.shader)
            && m.meshes.contains_key(dc.mesh) {
            Some(
                DeviceModel {
                    draws: m.draws.push(DrawRecord { surface: h, scissor: m.surfaces[h].1, call: dc }),
                    ..m
                },
            )
        } else {
            None
        },
    }
}

/// The state after the commands `cmds`, in order; `None` if one of them fails.
pub open spec fn run(m: DeviceModel, cmds: Seq<Command>, n: nat) -> Option<DeviceModel>
    decreases cmds.len(),
{
    if cmds.len() == 0 {
        Some(m)
    } else {
        match run(m, cmds.drop_last(), n) {
            Some(m2) => step(m2, cmds.last(), n),
            None => None,
        }
    }
}

/// The graphics device: executes the commands of a frame, in the order they
/// were recorded, checking each against the objects it holds.
pub struct Device {
    surfaces: ObjectTable<(SurfaceSetup, Scissor)>,
    shaders: ObjectTable<()>,
    meshes: ObjectTable<MeshParams>,
    textures: ObjectTable<TextureParams>,
    render_textures: ObjectTable<RenderTextureParams>,
    draws: Vec<DrawRecord>,
    dimensions: (u32, u32),
}

impl View for Device {
    type V = DeviceModel;

    closed spec fn view(&self) -> DeviceModel {
        DeviceModel {
            surfaces: self.surfaces@,
            shaders: self.shaders@,
            meshes: self.meshes@,
            textures: self.textures@,
            render_textures: self.render_textures@,
            draws: self.draws@,
            dimensions: self.dimensions,
        }
    }
}

impl Device {
    pub fn new() -> (r: Device)
        ensures
            r@.surfaces == Map::<Handle, (SurfaceSetup, Scissor)>::empty(),
            r@.shaders == Map::<Handle, ()>::empty(),
            r@.meshes == Map::<Handle, MeshParams>::empty(),
            r@.textures == Map::<Handle, TextureParams>::empty(),
            r@.render_textures == Map::<Handle, RenderTextureParams>::empty(),
            r@.draws == Seq::<DrawRecord>::empty(),
            r@.dimensions == (0u32, 0u32),
    {
        Device {
            surfaces: ObjectTable::new(),
            shaders: ObjectTable::new(),
            meshes: ObjectTable::new(),
            textures: ObjectTable::new(),
            render_textures: ObjectTable::new(),
            draws: Vec::new(),
            dimensions: (0, 0),
        }
    }

    /// The draws of the last frame executed, in execution order.
    pub fn draws(&self) -> (r: &Vec<DrawRecord>)
        ensures
            r@ == self@.draws,
    {
        &self.draws
    }

    /// The framebuffer size the last frame was executed against.
    pub fn dimensions(&self) -> (r: (u32, u32))
        ensures
            r == self@.dimensions,
    {
        self.dimensions
    }

    /// Executes one command over an arena of `n` bytes; says whether it was valid.
    fn execute(&mut self, cmd: &Command, n: usize) -> (r: bool)
        ensures
            r == step(old(self)@, *cmd, n as nat) is Some,
            r ==> final(self)@ == step(old(self)@, *cmd, n as nat)->Some_0,
            !r ==> final(self)@ == old(self)@,
    {
        match cmd {
            Command::CreateSurface(h, s) => {
                let ok = self.surfaces.insert(*h, (*s, Scissor::Disable));
                proof {
                    if ok {
                        assert(self@ == step(old(self)@, *cmd, n as nat)->Some_0);
                    }
                }
                ok
            },
            Command::DeleteSurface(h) => {
                let ok = self.surfaces.remove(*h).is_some();
                proof {
                    if ok {
                        assert(self@ == step(old(self)@, *cmd, n as nat)->Some_0);
                    }
                }
                ok
            },
            Command::CreateShader(h, _p, _vs, _fs) => {
                let ok = self.shaders.insert(*h, ());
                proof {
                    if ok {
                        assert(self@ == step(old(self)@, *cmd, n as nat)->Some_0);
                    }
                }
                ok
            },
            Command::DeleteShader(h) => {
                let ok = self.shaders.remove(*h).is_some();
                proof {
                    if ok {
                        assert(self@ == step(old(self)@, *cmd, n as nat)->Some_0);
                    }
                }
                ok
            },
            Command::CreateMesh(h, p, bufs) => {
                match bufs {
                    Some(b) => {
                        if b.vertices.len > n || b.vertices.offset > n - b.vertices.len
                            || b.indices.len > n || b.indices.offset > n - b.indices.len {
                            return false;
                        }
                    },
                    None => {},
                }
                let ok = self.meshes.insert(*h, *p);
                proof {
                    if ok {
                        assert(self@ == step(old(self)@, *cmd, n as nat)->Some_0);
                    }
                }
                ok
            },
            Command::UpdateVertexBuffer(h, _o, r) => {
                self.meshes.get(*h).is_some() && r.len <= n && r.offset <= n - r.len
            },
            Command::UpdateIndexBuffer(h, _o, r) => {
                self.meshes.get(*h).is_some() && r.len <= n && r.offset <= n - r.len
            },
            Command::DeleteMesh(h) => {
                let ok = self.meshes.remove(*h).is_some();
                proof {
                    if ok {
                        assert(self@ == step(old(self)@, *cmd, n as nat)->Some_0);
                    }
                }
                ok
            },
            Command::CreateTexture(h, p, r) => {
                match r {
                    Some(b) => {
                        if b.len > n || b.offset > n - b.len {
                            return false;
                        }
                    },
                    None => {},
                }
                let ok = self.textures.insert(*h, *p);
                proof {
                    if ok {
                        assert(self@ == step(old(self)@, *cmd, n as nat)->Some_0);
                    }
                }
                ok
            },
            Command::UpdateTexture(h, _a, r) => {
                self.textures.get(*h).is_some() && r.len <= n && r.offset <= n - r.len
            },
            Command::DeleteTexture(h) => {
                let ok = self.textures.remove(*h).is_some();
                proof {
                    if ok {
                        assert(self@ == step(old(self)@, *cmd, n as nat)->Some_0);
                    }
                }
                ok
            },
            Command::CreateRenderTexture(h, p) => {
                let ok = self.render_textures.insert(*h, *p);
                proof {
                    if ok {
                        assert(self@ == step(old(self)@, *cmd, n as nat)->Some_0);
                    }
                }
                ok
            },
            Command::DeleteRenderTexture(h) => {
                let ok = self.render_textures.remove(*h).is_some();
                proof {
                    if ok {
                        assert(self@ == step(old(self)@, *cmd, n as nat)->Some_0);
                    }
                }
                ok
            },
            Command::SetScissor(h, sc) => {
                let setup = match self.surfaces.get(*h) {
                    Some(e) => e.0,
                    None => {
                        return false;
                    },
                };
                let ok = self.surfaces.replace(*h, (setup, *sc));
                proof {
                    assert(self@ == step(old(self)@, *cmd, n as nat)->Some_0);
                }
                ok
            },
            Command::Draw(h, dc) => {
                let scissor = match self.surfaces.get(*h) {
                    Some(e) => e.1,
                    None => {
                        return false;
                    },
                };
                if self.shaders.get(dc.shader).is_none() || self.meshes.get(dc.mesh).is_none() {
                    return false;
                }
                self.draws.push(DrawRecord { surface: *h, scissor, call: *dc });
                proof {
                    assert(self@ == step(old(self)@, *cmd, n as nat)->Some_0);
                }
                true
            },
        }
    }

    /// Executes the commands of `frame`, in the order they were recorded,
    /// against a framebuffer of `dimensions` pixels. Stops at the first invalid
    /// command and returns its position; the commands before it have taken effect.
    pub fn dispatch(&mut self, frame: &Frame, dimensions: (u32, u32)) -> (r: Result<(), usize>)
        ensures
            r is Ok <==> run(fresh_frame(old(self)@, dimensions), frame.cmds@, frame.bufs@.len())
                is Some,
            r is Ok ==> final(self)@ == run(
                fresh_frame(old(self)@, dimensions),
                frame.cmds@,
                frame.bufs@.len(),
            )->Some_0,
            r matches Err(k) ==> k < frame.cmds@.len() && run(
                fresh_frame(old(self)@, dimensions),
                frame.cmds@.subrange(0, k as int),
                frame.bufs@.len(),
            ) == Some(final(self)@) && run(
                fresh_frame(old(self)@, dimensions),
                frame.cmds@.subrange(0, k + 1),
                frame.bufs@.len(),
            ) is None,
    {
        self.draws.clear();
        self.dimensions = dimensions;
        let ghost m0 = fresh_frame(old(self)@, dimensions);
        assert(self@ == m0);
        let n = frame.bufs.len();
        let mut i: usize = 0;
        while i < frame.cmds.len()
            invariant
                n == frame.bufs@.len(),
                m0 == fresh_frame(old(self)@, dimensions),
                i <= frame.cmds@.len(),
                run(m0, frame.cmds@.subrange(0, i as int), n as nat) == Some(self@),
            decreases frame.cmds@.len() - i,
        {
            let ok = self.execute(&frame.cmds[i], n);
            assert(frame.cmds@.subrange(0, i + 1).drop_last() =~= frame.cmds@.subrange(
                0,
                i as int,
            ));
            assert(frame.cmds@.subrange(0, i + 1).last() == frame.cmds@[i as int]);
            if !ok {
                proof {
                    assert(run(m0, frame.cmds@.subrange(0, i + 1), n as nat) is None);
                    lemma_run_stuck(m0, frame.cmds@, n as nat, (i + 1) as int);
                }
                return Err(i);
            }
            i = i + 1;
        }
        assert(frame.cmds@.subrange(0, i as int) =~= frame.cmds@);
        Ok(())
    }
}

/// Once a prefix fails, every longer prefix fails.
proof fn lemma_run_stuck(m: DeviceModel, cmds: Seq<Command>, n: nat, k: int)
    requires
        0 <= k <= cmds.len(),
        run(m, cmds.subrange(0, k), n) is None,
    ensures
        run(m, cmds, n) is None,
    decreases cmds.len() - k,
{
    if k < cmds.len() {
        assert(cmds.subrange(0, k + 1).drop_last() =~= cmds.subrange(0, k));
        lemma_run_stuck(m, cmds, n, k + 1);
    } else {
        assert(cmds.subrange(0, k) =~= cmds);
    }
}

} // verus!
