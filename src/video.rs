use vstd::prelude::*;

use crate::arena::BufRange;
use crate::assets::{
    MeshData, MeshHandle, MeshParams, Rect, RenderTextureParams, ShaderError, ShaderHandle,
    ShaderParams, TextureData, TextureHandle, TextureParams,
};
use crate::backend::{BackendError, Context};
use crate::device::{fresh_frame, run};
use crate::frame::{Command, DoubleBuf, DrawCall, Frame, MeshBufs};
use crate::handle::Handle;
use crate::pool::HandlePool;
use crate::registry::{other_than, EntryModel, LoadRequest, LoadState, Registry, Source, SourceModel};
use crate::surface::{RenderTextureHandle, Scissor, SurfaceHandle, SurfaceSetup};

verus! {

/// Bytes reserved up front for each frame's arena.
pub const FRAME_CAPACITY: usize = 65536;

/// Errors of the coordinator.
#[derive(Clone, Copy, Debug, PartialEq, Eq, Structural)]
pub enum VideoError {
    /// A handle names no live resource, or one that is not ready.
    NotFound,
    /// No handle is left for a new resource.
    Exhausted,
    /// The frame's arena cannot hold more bytes.
    ArenaFull,
    /// The shader's setup is refused.
    Shader(ShaderError),
}

/// What a shader's setup is, as the contracts see it.
pub open spec fn shader_model(p: ShaderParams) -> (u32, Seq<String>) {
    (p.attributes, p.uniform_variables@)
}

/// The coordinator as the contracts see it: the live resources of each kind and
/// every handle ever given for it, the fetches waiting for the host, the frame
/// being recorded, the frame handed to the device, and the framebuffer size.
pub struct VideoModel {
    pub surfaces: Map<Handle, SurfaceSetup>,
    pub surface_ids: Set<Handle>,
    pub shaders: Map<Handle, (u32, Seq<String>)>,
    pub shader_ids: Set<Handle>,
    pub meshes: Map<Handle, EntryModel<MeshParams>>,
    pub mesh_keys: Seq<(SourceModel, Handle)>,
    pub mesh_requests: Seq<(Handle, SourceModel)>,
    pub mesh_ids: Set<Handle>,
    pub textures: Map<Handle, EntryModel<TextureParams>>,
    pub texture_keys: Seq<(SourceModel, Handle)>,
    pub texture_requests: Seq<(Handle, SourceModel)>,
    pub texture_ids: Set<Handle>,
    pub render_textures: Map<Handle, RenderTextureParams>,
    pub render_texture_ids: Set<Handle>,
    pub front: Seq<Command>,
    pub front_bytes: Seq<u8>,
    pub back: Seq<Command>,
    pub back_bytes: Seq<u8>,
    pub dimensions: (u32, u32),
}

/// Whether `h` names a ready resource among `m`.
pub open spec fn is_ready<P>(m: Map<Handle, EntryModel<P>>, h: Handle) -> bool {
    m.contains_key(h) && m[h].state is Ready
}

/// Where a mesh's initial data lands when appended to an arena of `n` bytes.
pub open spec fn mesh_bufs(n: nat, vlen: nat, ilen: nat) -> MeshBufs {
    MeshBufs {
        vertices: BufRange { offset: n as usize, len: vlen as usize },
        indices: BufRange { offset: (n + vlen) as usize, len: ilen as usize },
    }
}

/// The centralized manager of the video subsystem: resource pools and registries,
/// and the two frames of deferred commands.
pub struct VideoSystem {
    frames: DoubleBuf,
    surfaces: HandlePool<SurfaceSetup>,
    shaders: HandlePool<ShaderParams>,
    meshes: Registry<MeshParams>,
    textures: Registry<TextureParams>,
    render_textures: HandlePool<RenderTextureParams>,
    last_dimensions: (u32, u32),
}

impl View for VideoSystem {
    type V = VideoModel;

    closed spec fn view(&self) -> VideoModel {
        VideoModel {
            surfaces: self.surfaces@,
            surface_ids: self.surfaces.issued(),
            shaders: self.shaders@.map_values(|p: ShaderParams| shader_model(p)),
            shader_ids: self.shaders.issued(),
            meshes: self.meshes.entries(),
            mesh_keys: self.meshes.keys(),
            mesh_requests: self.meshes.requests(),
            mesh_ids: self.meshes.issued(),
            textures: self.textures.entries(),
            texture_keys: self.textures.keys(),
            texture_requests: self.textures.requests(),
            texture_ids: self.textures.issued(),
            render_textures: self.render_textures@,
            render_texture_ids: self.render_textures.issued(),
            front: self.frames.front().cmds@,
            front_bytes: self.frames.front().bufs@,
            back: self.frames.back().cmds@,
            back_bytes: self.frames.back().bufs@,
            dimensions: self.last_dimensions,
        }
    }
}

impl VideoSystem {
    pub closed spec fn wf(&self) -> bool {
        &&& self.surfaces.wf()
        &&& self.shaders.wf()
        &&& self.meshes.wf()
        &&& self.textures.wf()
        &&& self.render_textures.wf()
    }

    pub closed spec fn surfaces_exhausted(&self) -> bool {
        self.surfaces.exhausted()
    }

    pub closed spec fn shaders_exhausted(&self) -> bool {
        self.shaders.exhausted()
    }

    pub closed spec fn meshes_exhausted(&self) -> bool {
        self.meshes.exhausted()
    }

    pub closed spec fn textures_exhausted(&self) -> bool {
        self.textures.exhausted()
    }

    pub closed spec fn render_textures_exhausted(&self) -> bool {
        self.render_textures.exhausted()
    }

    /// A coordinator for a framebuffer of `dimensions` pixels, with nothing
    /// recorded.
    pub fn new(dimensions: (u32, u32)) -> (r: VideoSystem)
        ensures
            r.wf(),
            r@.surfaces.is_empty() && r@.shaders.is_empty() && r@.meshes.is_empty()
                && r@.textures.is_empty() && r@.render_textures.is_empty(),
            r@.surface_ids.is_empty() && r@.shader_ids.is_empty() && r@.mesh_ids.is_empty()
                && r@.texture_ids.is_empty() && r@.render_texture_ids.is_empty(),
            r@.mesh_keys.len() == 0 && r@.mesh_requests.len() == 0,
            r@.texture_keys.len() == 0 && r@.texture_requests.len() == 0,
            r@.front.len() == 0 && r@.front_bytes.len() == 0,
            r@.back.len() == 0 && r@.back_bytes.len() == 0,
            r@.dimensions == dimensions,
            !r.surfaces_exhausted() && !r.shaders_exhausted() && !r.meshes_exhausted()
                && !r.textures_exhausted() && !r.render_textures_exhausted(),
    {
        let r = VideoSystem {
            frames: DoubleBuf::new(
                Frame::with_capacity(FRAME_CAPACITY),
                Frame::with_capacity(FRAME_CAPACITY),
            ),
            surfaces: HandlePool::new(),
            shaders: HandlePool::new(),
            meshes: Registry::new(),
            textures: Registry::new(),
            render_textures: HandlePool::new(),
            last_dimensions: dimensions,
        };
        assert(r@.shaders =~= Map::empty());
        r
    }

    /// A coordinator with no window: its framebuffer has no pixels.
    pub fn headless() -> (r: VideoSystem)
        ensures
            r.wf(),
            r@.surfaces.is_empty() && r@.shaders.is_empty() && r@.meshes.is_empty()
                && r@.textures.is_empty() && r@.render_textures.is_empty(),
            r@.surface_ids.is_empty() && r@.shader_ids.is_empty() && r@.mesh_ids.is_empty()
                && r@.texture_ids.is_empty() && r@.render_texture_ids.is_empty(),
            r@.mesh_keys.len() == 0 && r@.mesh_requests.len() == 0,
            r@.texture_keys.len() == 0 && r@.texture_requests.len() == 0,
            r@.front.len() == 0 && r@.front_bytes.len() == 0,
            r@.back.len() == 0 && r@.back_bytes.len() == 0,
            r@.dimensions == (0u32, 0u32),
            !r.surfaces_exhausted() && !r.shaders_exhausted() && !r.meshes_exhausted()
                && !r.textures_exhausted() && !r.render_textures_exhausted(),
    {
        VideoSystem::new((0, 0))
    }

    /// The frame being recorded.
    pub fn front_frame(&self) -> (r: &Frame)
        ensures
            r.cmds@ == self@.front,
            r.bufs@ == self@.front_bytes,
    {
        self.frames.front_frame()
    }

    /// The frame handed to the device at the last swap.
    pub fn back_frame(&self) -> (r: &Frame)
        ensures
            r.cmds@ == self@.back,
            r.bufs@ == self@.back_bytes,
    {
        self.frames.back_frame()
    }

    fn push(&mut self, cmd: Command)
        ensures
            final(self)@ == (VideoModel { front: old(self)@.front.push(cmd), ..old(self)@ }),
            final(self).wf() == old(self).wf(),
            final(self).meshes == old(self).meshes,
    {
        let frame = self.frames.write();
        frame.push(cmd);
    }

    /// Appends `data` to the frame being recorded.
    fn append(&mut self, data: &[u8]) -> (r: Option<BufRange>)
        ensures
            final(self).wf() == old(self).wf(),
            final(self).meshes == old(self).meshes,
            match r {
                Some(p) => old(self)@.front_bytes.len() + data@.len() <= usize::MAX && final(self)@ == (VideoModel {
                    front_bytes: old(self)@.front_bytes + data@,
                    ..old(self)@
                }) && p == (BufRange { offset: old(self)@.front_bytes.len() as usize, len: data@.len() as usize }),
                None => final(self)@ == old(self)@ && old(self)@.front_bytes.len() + data@.len()
                    > usize::MAX,
            },
    {
        let frame = self.frames.write();
        frame.bufs.extend_from_slice(data)
    }

    // ---- surfaces ----

    /// Makes a surface with `params` and records its creation.
    pub fn create_surface(&mut self, params: SurfaceSetup) -> (r: Result<SurfaceHandle, VideoError>)
        requires
            old(self).wf(),
        ensures
            final(self).wf(),
            match r {
                Ok(h) => !old(self).surfaces_exhausted() && !old(self)@.surface_ids.contains(h)
                    && !old(self)@.surfaces.contains_key(h)
                    && final(self)@ == (VideoModel {
                    surfaces: old(self)@.surfaces.insert(h, params),
                    surface_ids: old(self)@.surface_ids.insert(h),
                    front: old(self)@.front.push(Command::CreateSurface(h, params)),
                    ..old(self)@
                }),
                Err(e) => old(self).surfaces_exhausted() && e == VideoError::Exhausted
                    && final(self)@ == old(self)@,
            },
    {
        match self.surfaces.create(params) {
            Ok(h) => {
                self.push(Command::CreateSurface(h, params));
                Ok(h)
            },
            Err(_) => Err(VideoError::Exhausted),
        }
    }

    /// The setup of surface `h`, if it is live.
    pub fn surface(&self, h: SurfaceHandle) -> (r: Option<SurfaceSetup>)
        requires
            self.wf(),
        ensures
            r == if self@.surfaces.contains_key(h) {
                Some(self@.surfaces[h])
            } else {
                None
            },
    {
        match self.surfaces.get(h) {
            Some(p) => Some(*p),
            None => None,
        }
    }

    /// Frees surface `h`; its deletion is recorded only if it was live.
    pub fn delete_surface(&mut self, h: SurfaceHandle)
        requires
            old(self).wf(),
        ensures
            final(self).wf(),
            !final(self)@.surfaces.contains_key(h),
            final(self)@ == after_delete_surface(old(self)@, h),
    {
        if self.surfaces.free(h).is_some() {
            self.push(Command::DeleteSurface(h));
        }
    }

    // ---- shaders ----

    /// Makes a shader with `params` and its sources, after checking them, and
    /// records its creation.
    pub fn create_shader(&mut self, params: ShaderParams, vs: String, fs: String) -> (r: Result<
        ShaderHandle,
        VideoError,
    >)
        requires
            old(self).wf(),
        ensures
            final(self).wf(),
            match params.fault(vs@, fs@) {
                Some(f) => r == Err::<ShaderHandle, VideoError>(VideoError::Shader(f))
                    && final(self)@ == old(self)@,
                None => match r {
                    Ok(h) => !old(self).shaders_exhausted() && !old(self)@.shader_ids.contains(h)
                        && !old(self)@.shaders.contains_key(h)
                        && final(self)@ == (VideoModel {
                        shaders: old(self)@.shaders.insert(h, shader_model(params)),
                        shader_ids: old(self)@.shader_ids.insert(h),
                        front: old(self)@.front.push(Command::CreateShader(h, params, vs, fs)),
                        ..old(self)@
                    }),
                    Err(e) => old(self).shaders_exhausted() && e == VideoError::Exhausted
                        && final(self)@ == old(self)@,
                },
            },
    {
        match params.validate(&vs, &fs) {
            Err(f) => {
                return Err(VideoError::Shader(f));
            },
            Ok(()) => {},
        }
        let copy = params.duplicate();
        match self.shaders.create(copy) {
            Ok(h) => {
                proof {
                    assert(self@.shaders =~= old(self)@.shaders.insert(h, shader_model(params)));
                }
                self.push(Command::CreateShader(h, params, vs, fs));
                Ok(h)
            },
            Err(_) => {
                assert(self@.shaders =~= old(self)@.shaders);
                Err(VideoError::Exhausted)
            },
        }
    }

    /// The setup of shader `h`, if it is live.
    pub fn shader(&self, h: ShaderHandle) -> (r: Option<ShaderParams>)
        requires
            self.wf(),
        ensures
            match r {
                Some(p) => self@.shaders.contains_key(h) && shader_model(p) == self@.shaders[h],
                None => !self@.shaders.contains_key(h),
            },
    {
        match self.shaders.get(h) {
            Some(p) => Some(p.duplicate()),
            None => None,
        }
    }

    /// Frees shader `h`; its deletion is recorded only if it was live.
    pub fn delete_shader(&mut self, h: ShaderHandle)
        requires
            old(self).wf(),
        ensures
            final(self).wf(),
            !final(self)@.shaders.contains_key(h),
            final(self)@ == after_delete_shader(old(self)@, h),
    {
        if self.shaders.free(h).is_some() {
            assert(self@.shaders =~= old(self)@.shaders.remove(h));
            self.push(Command::DeleteShader(h));
        } else {
            assert(self@.shaders =~= old(self)@.shaders);
        }
    }
}

impl VideoSystem {
    // ---- meshes ----

    /// Makes a mesh with `params`, ready at once, and records its creation with
    /// its initial data, if any.
    pub fn create_mesh(&mut self, params: MeshParams, data: Option<MeshData>) -> (r: Result<
        MeshHandle,
        VideoError,
    >)
        requires
            old(self).wf(),
        ensures
            final(self).wf(),
            match data {
                Some(d) => old(self)@.front_bytes.len() + d.vptr@.len() + d.iptr@.len()
                    > usize::MAX ==> r == Err::<MeshHandle, VideoError>(VideoError::ArenaFull)
                    && final(self)@ == old(self)@,
                None => true,
            },
            (data is None || old(self)@.front_bytes.len() + data->Some_0.vptr@.len()
                + data->Some_0.iptr@.len() <= usize::MAX) ==> match r {
                Ok(h) => !old(self).meshes_exhausted() && !old(self)@.mesh_ids.contains(h)
                    && !old(self)@.meshes.contains_key(h)
                    && final(self)@ == (VideoModel {
                    meshes: old(self)@.meshes.insert(
                        h,
                        EntryModel { state: LoadState::Ready(params), source: None },
                    ),
                    mesh_ids: old(self)@.mesh_ids.insert(h),
                    front: old(self)@.front.push(
                        Command::CreateMesh(
                            h,
                            params,
                            match data {
                                Some(d) => Some(
                                    mesh_bufs(
                                        old(self)@.front_bytes.len(),
                                        d.vptr@.len(),
                                        d.iptr@.len(),
                                    ),
                                ),
                                None => None,
                            },
                        ),
                    ),
                    front_bytes: match data {
                        Some(d) => old(self)@.front_bytes + d.vptr@ + d.iptr@,
                        None => old(self)@.front_bytes,
                    },
                    ..old(self)@
                }),
                Err(e) => old(self).meshes_exhausted() && e == VideoError::Exhausted
                    && final(self)@ == old(self)@,
            },
    {
        match &data {
            Some(d) => {
                let used = self.frames.front_frame().bufs.len();
                if d.vptr.len() > usize::MAX - used || d.iptr.len() > usize::MAX - used
                    - d.vptr.len() {
                    return Err(VideoError::ArenaFull);
                }
            },
            None => {},
        }
        let h = match self.meshes.create(params) {
            Ok(h) => h,
            Err(_) => {
                return Err(VideoError::Exhausted);
            },
        };
        let bufs = match &data {
            Some(d) => {
                let v = self.append(d.vptr.as_slice());
                let i = self.append(d.iptr.as_slice());
                match (v, i) {
                    (Some(v), Some(i)) => Some(MeshBufs { vertices: v, indices: i }),
                    _ => None,
                }
            },
            None => None,
        };
        self.push(Command::CreateMesh(h, params, bufs));
        Ok(h)
    }

    /// Asks for the mesh whose content comes from the URL `url`; requests for a
    /// source that is pending or ready share one mesh and one fetch.
    pub fn create_mesh_from(&mut self, url: String) -> (r: Result<MeshHandle, VideoError>)
        requires
            old(self).wf(),
        ensures
            final(self).wf(),
            r is Err ==> old(self).meshes_exhausted(),
            final(self)@.front == old(self)@.front,
            after_mesh_request(old(self)@, SourceModel::Url(url@), r, final(self)@),
    {
        self.create_mesh_from_source(Source::Url(url))
    }

    /// Asks for the mesh whose content has the id `uuid`; requests for a source
    /// that is pending or ready share one mesh and one fetch.
    pub fn create_mesh_from_uuid(&mut self, uuid: u128) -> (r: Result<MeshHandle, VideoError>)
        requires
            old(self).wf(),
        ensures
            final(self).wf(),
            r is Err ==> old(self).meshes_exhausted(),
            final(self)@.front == old(self)@.front,
            after_mesh_request(old(self)@, SourceModel::Uuid(uuid), r, final(self)@),
    {
        self.create_mesh_from_source(Source::Uuid(uuid))
    }

    fn create_mesh_from_source(&mut self, source: Source) -> (r: Result<MeshHandle, VideoError>)
        requires
            old(self).wf(),
        ensures
            final(self).wf(),
            r is Err ==> old(self).meshes_exhausted(),
            final(self)@.front == old(self)@.front,
            after_mesh_request(old(self)@, crate::registry::source_model(source), r, final(self)@),
    {
        match self.meshes.create_from(source) {
            Ok(h) => Ok(h),
            Err(_) => Err(VideoError::Exhausted),
        }
    }

    /// Hands the host the mesh fetches to perform, oldest first.
    pub fn take_mesh_requests(&mut self) -> (r: Vec<LoadRequest>)
        requires
            old(self).wf(),
        ensures
            final(self).wf(),
            r@.map_values(|q: LoadRequest| (q.handle, crate::registry::source_model(q.source)))
                == old(self)@.mesh_requests,
            final(self)@ == (VideoModel { mesh_requests: Seq::empty(), ..old(self)@ }),
    {
        let r = self.meshes.take_requests();
        assert(self@.mesh_requests =~= Seq::<(Handle, SourceModel)>::empty());
        r
    }

    /// Settles the pending mesh `h` with its fetched content: it becomes ready and
    /// its creation is recorded with that data.
    pub fn mesh_loaded(&mut self, h: MeshHandle, params: MeshParams, data: MeshData) -> (r: Result<
        (),
        VideoError,
    >)
        requires
            old(self).wf(),
        ensures
            final(self).wf(),
            !(old(self)@.meshes.contains_key(h) && old(self)@.meshes[h].state is Pending) ==> r
                == Err::<(), VideoError>(VideoError::NotFound) && final(self)@ == old(self)@,
            old(self)@.meshes.contains_key(h) && old(self)@.meshes[h].state is Pending
                && old(self)@.front_bytes.len() + data.vptr@.len() + data.iptr@.len()
                > usize::MAX ==> r == Err::<(), VideoError>(VideoError::ArenaFull)
                && final(self)@ == old(self)@,
            old(self)@.meshes.contains_key(h) && old(self)@.meshes[h].state is Pending
                && old(self)@.front_bytes.len() + data.vptr@.len() + data.iptr@.len()
                <= usize::MAX ==> r is Ok && final(self)@ == (VideoModel {
                meshes: old(self)@.meshes.insert(
                    h,
                    EntryModel {
                        state: LoadState::Ready(params),
                        source: old(self)@.meshes[h].source,
                    },
                ),
                front: old(self)@.front.push(
                    Command::CreateMesh(
                        h,
                        params,
                        Some(
                            mesh_bufs(
                                old(self)@.front_bytes.len(),
                                data.vptr@.len(),
                                data.iptr@.len(),
                            ),
                        ),
                    ),
                ),
                front_bytes: old(self)@.front_bytes + data.vptr@ + data.iptr@,
                ..old(self)@
            }),
    {
        match self.meshes.state(h) {
            Some(LoadState::Pending) => {},
            _ => {
                return Err(VideoError::NotFound);
            },
        }
        let used = self.frames.front_frame().bufs.len();
        if data.vptr.len() > usize::MAX - used || data.iptr.len() > usize::MAX - used
            - data.vptr.len() {
            return Err(VideoError::ArenaFull);
        }
        let _ = self.meshes.complete(h, Some(params));
        let v = self.append(data.vptr.as_slice());
        let i = self.append(data.iptr.as_slice());
        let bufs = match (v, i) {
            (Some(v), Some(i)) => Some(MeshBufs { vertices: v, indices: i }),
            _ => None,
        };
        self.push(Command::CreateMesh(h, params, bufs));
        Ok(())
    }

    /// Settles the pending mesh `h` as failed: every request that shares it sees
    /// the failure, and a fresh request starts a new fetch.
    pub fn mesh_failed(&mut self, h: MeshHandle) -> (r: Result<(), VideoError>)
        requires
            old(self).wf(),
        ensures
            final(self).wf(),
            old(self)@.meshes.contains_key(h) && old(self)@.meshes[h].state is Pending ==> r is Ok
                && final(self)@ == (VideoModel {
                meshes: old(self)@.meshes.insert(
                    h,
                    EntryModel { state: LoadState::Failed, source: old(self)@.meshes[h].source },
                ),
                ..old(self)@
            }),
            !(old(self)@.meshes.contains_key(h) && old(self)@.meshes[h].state is Pending) ==> r
                == Err::<(), VideoError>(VideoError::NotFound) && final(self)@ == old(self)@,
    {
        match self.meshes.complete(h, None) {
            Ok(()) => Ok(()),
            Err(_) => Err(VideoError::NotFound),
        }
    }

    /// Where mesh `h` stands, if it is live.
    pub fn mesh_state(&self, h: MeshHandle) -> (r: Option<LoadState<MeshParams>>)
        requires
            self.wf(),
        ensures
            r == if self@.meshes.contains_key(h) {
                Some(self@.meshes[h].state)
            } else {
                None
            },
    {
        self.meshes.state(h)
    }

    /// The setup of mesh `h`, if it is live and ready.
    pub fn mesh(&self, h: MeshHandle) -> (r: Option<MeshParams>)
        requires
            self.wf(),
        ensures
            r == if is_ready(self@.meshes, h) {
                Some(self@.meshes[h].state->Ready_0)
            } else {
                None
            },
    {
        self.meshes.get(h)
    }

    /// Records that `data` replaces the bytes of mesh `h`'s vertex buffer from
    /// byte `offset` on.
    pub fn update_vertex_buffer(&mut self, h: MeshHandle, offset: usize, data: &[u8]) -> (r:
        Result<(), VideoError>)
        requires
            old(self).wf(),
        ensures
            final(self).wf(),
            !is_ready(old(self)@.meshes, h) ==> r == Err::<(), VideoError>(VideoError::NotFound)
                && final(self)@ == old(self)@,
            is_ready(old(self)@.meshes, h) && old(self)@.front_bytes.len() + data@.len()
                > usize::MAX ==> r == Err::<(), VideoError>(VideoError::ArenaFull)
                && final(self)@ == old(self)@,
            is_ready(old(self)@.meshes, h) && old(self)@.front_bytes.len() + data@.len()
                <= usize::MAX ==> r is Ok && final(self)@ == (VideoModel {
                front: old(self)@.front.push(
                    Command::UpdateVertexBuffer(
                        h,
                        offset,
                        BufRange {
                            offset: old(self)@.front_bytes.len() as usize,
                            len: data@.len() as usize,
                        },
                    ),
                ),
                front_bytes: old(self)@.front_bytes + data@,
                ..old(self)@
            }),
    {
        if self.meshes.get(h).is_none() {
            return Err(VideoError::NotFound);
        }
        match self.append(data) {
            Some(p) => {
                self.push(Command::UpdateVertexBuffer(h, offset, p));
                Ok(())
            },
            None => Err(VideoError::ArenaFull),
        }
    }

    /// Records that `data` replaces the bytes of mesh `h`'s index buffer from
    /// byte `offset` on.
    pub fn update_index_buffer(&mut self, h: MeshHandle, offset: usize, data: &[u8]) -> (r:
        Result<(), VideoError>)
        requires
            old(self).wf(),
        ensures
            final(self).wf(),
            !is_ready(old(self)@.meshes, h) ==> r == Err::<(), VideoError>(VideoError::NotFound)
                && final(self)@ == old(self)@,
            is_ready(old(self)@.meshes, h) && old(self)@.front_bytes.len() + data@.len()
                > usize::MAX ==> r == Err::<(), VideoError>(VideoError::ArenaFull)
                && final(self)@ == old(self)@,
            is_ready(old(self)@.meshes, h) && old(self)@.front_bytes.len() + data@.len()
                <= usize::MAX ==> r is Ok && final(self)@ == (VideoModel {
                front: old(self)@.front.push(
                    Command::UpdateIndexBuffer(
                        h,
                        offset,
                        BufRange {
                            offset: old(self)@.front_bytes.len() as usize,
                            len: data@.len() as usize,
                        },
                    ),
                ),
                front_bytes: old(self)@.front_bytes + data@,
                ..old(self)@
            }),
    {
        if self.meshes.get(h).is_none() {
            return Err(VideoError::NotFound);
        }
        match self.append(data) {
            Some(p) => {
                self.push(Command::UpdateIndexBuffer(h, offset, p));
                Ok(())
            },
            None => Err(VideoError::ArenaFull),
        }
    }

    /// Frees mesh `h`. Its deletion is recorded only if the device holds it, that
    /// is if it was ready.
    pub fn delete_mesh(&mut self, h: MeshHandle)
        requires
            old(self).wf(),
        ensures
            final(self).wf(),
            !final(self)@.meshes.contains_key(h),
            final(self)@ == after_delete_mesh(old(self)@, h),
            !old(self).meshes_exhausted() ==> !final(self).meshes_exhausted(),
    {
        match self.meshes.delete(h) {
            Some(LoadState::Ready(_)) => {
                self.push(Command::DeleteMesh(h));
            },
            _ => {
                assert(old(self)@.front == self@.front);
            },
        }
    }
}

impl VideoSystem {
    // ---- textures ----

    /// Makes a texture with `params`, ready at once, and records its creation
    /// with its initial texels, if any.
    pub fn create_texture(&mut self, params: TextureParams, data: Option<TextureData>) -> (r:
        Result<TextureHandle, VideoError>)
        requires
            old(self).wf(),
        ensures
            final(self).wf(),
            match data {
                Some(d) => old(self)@.front_bytes.len() + d.bytes@.len() > usize::MAX ==> r
                    == Err::<TextureHandle, VideoError>(VideoError::ArenaFull) && final(self)@
                    == old(self)@,
                None => true,
            },
            (data is None || old(self)@.front_bytes.len() + data->Some_0.bytes@.len()
                <= usize::MAX) ==> match r {
                Ok(h) => !old(self).textures_exhausted() && !old(self)@.texture_ids.contains(h)
                    && !old(self)@.textures.contains_key(h)
                    && final(self)@ == (VideoModel {
                    textures: old(self)@.textures.insert(
                        h,
                        EntryModel { state: LoadState::Ready(params), source: None },
                    ),
                    texture_ids: old(self)@.texture_ids.insert(h),
                    front: old(self)@.front.push(
                        Command::CreateTexture(
                            h,
                            params,
                            match data {
                                Some(d) => Some(
                                    BufRange {
                                        offset: old(self)@.front_bytes.len() as usize,
                                        len: d.bytes@.len() as usize,
                                    },
                                ),
                                None => None,
                            },
                        ),
                    ),
                    front_bytes: match data {
                        Some(d) => old(self)@.front_bytes + d.bytes@,
                        None => old(self)@.front_bytes,
                    },
                    ..old(self)@
                }),
                Err(e) => old(self).textures_exhausted() && e == VideoError::Exhausted
                    && final(self)@ == old(self)@,
            },
    {
        match &data {
            Some(d) => {
                let used = self.frames.front_frame().bufs.len();
                if d.bytes.len() > usize::MAX - used {
                    return Err(VideoError::ArenaFull);
                }
            },
            None => {},
        }
        let h = match self.textures.create(params) {
            Ok(h) => h,
            Err(_) => {
                return Err(VideoError::Exhausted);
            },
        };
        let range = match &data {
            Some(d) => self.append(d.bytes.as_slice()),
            None => None,
        };
        self.push(Command::CreateTexture(h, params, range));
        Ok(h)
    }

    /// Asks for the texture whose content comes from the URL `url`; requests for
    /// a source that is pending or ready share one texture and one fetch.
    pub fn create_texture_from(&mut self, url: String) -> (r: Result<TextureHandle, VideoError>)
        requires
            old(self).wf(),
        ensures
            final(self).wf(),
            r is Err ==> old(self).textures_exhausted(),
            after_texture_request(old(self)@, SourceModel::Url(url@), r, final(self)@),
    {
        self.create_texture_from_source(Source::Url(url))
    }

    /// Asks for the texture whose content has the id `uuid`; requests for a
    /// source that is pending or ready share one texture and one fetch.
    pub fn create_texture_from_uuid(&mut self, uuid: u128) -> (r: Result<TextureHandle, VideoError>)
        requires
            old(self).wf(),
        ensures
            final(self).wf(),
            r is Err ==> old(self).textures_exhausted(),
            after_texture_request(old(self)@, SourceModel::Uuid(uuid), r, final(self)@),
    {
        self.create_texture_from_source(Source::Uuid(uuid))
    }

    fn create_texture_from_source(&mut self, source: Source) -> (r: Result<TextureHandle, VideoError>)
        requires
            old(self).wf(),
        ensures
            final(self).wf(),
            r is Err ==> old(self).textures_exhausted(),
            after_texture_request(old(self)@, crate::registry::source_model(source), r, final(self)@),
    {
        match self.textures.create_from(source) {
            Ok(h) => Ok(h),
            Err(_) => Err(VideoError::Exhausted),
        }
    }

    /// Hands the host the texture fetches to perform, oldest first.
    pub fn take_texture_requests(&mut self) -> (r: Vec<LoadRequest>)
        requires
            old(self).wf(),
        ensures
            final(self).wf(),
            r@.map_values(|q: LoadRequest| (q.handle, crate::registry::source_model(q.source)))
                == old(self)@.texture_requests,
            final(self)@ == (VideoModel { texture_requests: Seq::empty(), ..old(self)@ }),
    {
        let r = self.textures.take_requests();
        assert(self@.texture_requests =~= Seq::<(Handle, SourceModel)>::empty());
        r
    }

    /// Settles the pending texture `h` with its fetched content: it becomes ready
    /// and its creation is recorded with those texels.
    pub fn texture_loaded(&mut self, h: TextureHandle, params: TextureParams, data: TextureData) -> (r:
        Result<(), VideoError>)
        requires
            old(self).wf(),
        ensures
            final(self).wf(),
            !(old(self)@.textures.contains_key(h) && old(self)@.textures[h].state is Pending) ==> r
                == Err::<(), VideoError>(VideoError::NotFound) && final(self)@ == old(self)@,
            old(self)@.textures.contains_key(h) && old(self)@.textures[h].state is Pending
                && old(self)@.front_bytes.len() + data.bytes@.len() > usize::MAX ==> r
                == Err::<(), VideoError>(VideoError::ArenaFull) && final(self)@ == old(self)@,
            old(self)@.textures.contains_key(h) && old(self)@.textures[h].state is Pending
                && old(self)@.front_bytes.len() + data.bytes@.len() <= usize::MAX ==> r is Ok
                && final(self)@ == (VideoModel {
                textures: old(self)@.textures.insert(
                    h,
                    EntryModel {
                        state: LoadState::Ready(params),
                        source: old(self)@.textures[h].source,
                    },
                ),
                front: old(self)@.front.push(
                    Command::CreateTexture(
                        h,
                        params,
                        Some(
                            BufRange {
                                offset: old(self)@.front_bytes.len() as usize,
                                len: data.bytes@.len() as usize,
                            },
                        ),
                    ),
                ),
                front_bytes: old(self)@.front_bytes + data.bytes@,
                ..old(self)@
            }),
    {
        match self.textures.state(h) {
            Some(LoadState::Pending) => {},
            _ => {
                return Err(VideoError::NotFound);
            },
        }
        let used = self.frames.front_frame().bufs.len();
        if data.bytes.len() > usize::MAX - used {
            return Err(VideoError::ArenaFull);
        }
        let _ = self.textures.complete(h, Some(params));
        let range = self.append(data.bytes.as_slice());
        self.push(Command::CreateTexture(h, params, range));
        Ok(())
    }

    /// Settles the pending texture `h` as failed: every request that shares it
    /// sees the failure, and a fresh request starts a new fetch.
    pub fn texture_failed(&mut self, h: TextureHandle) -> (r: Result<(), VideoError>)
        requires
            old(self).wf(),
        ensures
            final(self).wf(),
            old(self)@.textures.contains_key(h) && old(self)@.textures[h].state is Pending ==> r
                is Ok && final(self)@ == (VideoModel {
                textures: old(self)@.textures.insert(
                    h,
                    EntryModel { state: LoadState::Failed, source: old(self)@.textures[h].source },
                ),
                ..old(self)@
            }),
            !(old(self)@.textures.contains_key(h) && old(self)@.textures[h].state is Pending) ==> r
                == Err::<(), VideoError>(VideoError::NotFound) && final(self)@ == old(self)@,
    {
        match self.textures.complete(h, None) {
            Ok(()) => Ok(()),
            Err(_) => Err(VideoError::NotFound),
        }
    }

    /// Where texture `h` stands, if it is live.
    pub fn texture_state(&self, h: TextureHandle) -> (r: Option<LoadState<TextureParams>>)
        requires
            self.wf(),
        ensures
            r == if self@.textures.contains_key(h) {
                Some(self@.textures[h].state)
            } else {
                None
            },
    {
        self.textures.state(h)
    }

    /// The setup of texture `h`, if it is live and ready.
    pub fn texture(&self, h: TextureHandle) -> (r: Option<TextureParams>)
        requires
            self.wf(),
        ensures
            r == if is_ready(self@.textures, h) {
                Some(self@.textures[h].state->Ready_0)
            } else {
                None
            },
    {
        self.textures.get(h)
    }

    /// Records that `data` replaces the texels of `area` in texture `h`.
    pub fn update_texture(&mut self, h: TextureHandle, area: Rect, data: &[u8]) -> (r: Result<
        (),
        VideoError,
    >)
        requires
            old(self).wf(),
        ensures
            final(self).wf(),
            !is_ready(old(self)@.textures, h) ==> r == Err::<(), VideoError>(VideoError::NotFound)
                && final(self)@ == old(self)@,
            is_ready(old(self)@.textures, h) && old(self)@.front_bytes.len() + data@.len()
                > usize::MAX ==> r == Err::<(), VideoError>(VideoError::ArenaFull)
                && final(self)@ == old(self)@,
            is_ready(old(self)@.textures, h) && old(self)@.front_bytes.len() + data@.len()
                <= usize::MAX ==> r is Ok && final(self)@ == (VideoModel {
                front: old(self)@.front.push(
                    Command::UpdateTexture(
                        h,
                        area,
                        BufRange {
                            offset: old(self)@.front_bytes.len() as usize,
                            len: data@.len() as usize,
                        },
                    ),
                ),
                front_bytes: old(self)@.front_bytes + data@,
                ..old(self)@
            }),
    {
        if self.textures.get(h).is_none() {
            return Err(VideoError::NotFound);
        }
        match self.append(data) {
            Some(p) => {
                self.push(Command::UpdateTexture(h, area, p));
                Ok(())
            },
            None => Err(VideoError::ArenaFull),
        }
    }

    /// Frees texture `h`. Its deletion is recorded only if the device holds it,
    /// that is if it was ready.
    pub fn delete_texture(&mut self, h: TextureHandle)
        requires
            old(self).wf(),
        ensures
            final(self).wf(),
            !final(self)@.textures.contains_key(h),
            final(self)@ == after_delete_texture(old(self)@, h),
    {
        match self.textures.delete(h) {
            Some(LoadState::Ready(_)) => {
                self.push(Command::DeleteTexture(h));
            },
            _ => {},
        }
    }

    // ---- render textures ----

    /// Makes a render texture with `params` and records its creation.
    pub fn create_render_texture(&mut self, params: RenderTextureParams) -> (r: Result<
        RenderTextureHandle,
        VideoError,
    >)
        requires
            old(self).wf(),
        ensures
            final(self).wf(),
            match r {
                Ok(h) => !old(self).render_textures_exhausted()
                    && !old(self)@.render_texture_ids.contains(h)
                    && !old(self)@.render_textures.contains_key(h) && final(self)@ == (VideoModel {
                    render_textures: old(self)@.render_textures.insert(h, params),
                    render_texture_ids: old(self)@.render_texture_ids.insert(h),
                    front: old(self)@.front.push(Command::CreateRenderTexture(h, params)),
                    ..old(self)@
                }),
                Err(e) => old(self).render_textures_exhausted() && e == VideoError::Exhausted
                    && final(self)@ == old(self)@,
            },
    {
        match self.render_textures.create(params) {
            Ok(h) => {
                self.push(Command::CreateRenderTexture(h, params));
                Ok(h)
            },
            Err(_) => Err(VideoError::Exhausted),
        }
    }

    /// The setup of render texture `h`, if it is live.
    pub fn render_texture(&self, h: RenderTextureHandle) -> (r: Option<RenderTextureParams>)
        requires
            self.wf(),
        ensures
            r == if self@.render_textures.contains_key(h) {
                Some(self@.render_textures[h])
            } else {
                None
            },
    {
        match self.render_textures.get(h) {
            Some(p) => Some(*p),
            None => None,
        }
    }

    /// Frees render texture `h`; its deletion is recorded only if it was live.
    pub fn delete_render_texture(&mut self, h: RenderTextureHandle)
        requires
            old(self).wf(),
        ensures
            final(self).wf(),
            !final(self)@.render_textures.contains_key(h),
            final(self)@ == after_delete_render_texture(old(self)@, h),
    {
        if self.render_textures.free(h).is_some() {
            self.push(Command::DeleteRenderTexture(h));
        }
    }

    // ---- draws ----

    /// Records that draws on surface `surface` are clipped to `scissor` from now on.
    pub fn set_scissor(&mut self, surface: SurfaceHandle, scissor: Scissor) -> (r: Result<
        (),
        VideoError,
    >)
        requires
            old(self).wf(),
        ensures
            final(self).wf(),
            old(self)@.surfaces.contains_key(surface) ==> r is Ok && final(self)@ == (VideoModel {
                front: old(self)@.front.push(Command::SetScissor(surface, scissor)),
                ..old(self)@
            }),
            !old(self)@.surfaces.contains_key(surface) ==> r == Err::<(), VideoError>(
                VideoError::NotFound,
            ) && final(self)@ == old(self)@,
    {
        if self.surfaces.get(surface).is_none() {
            return Err(VideoError::NotFound);
        }
        self.push(Command::SetScissor(surface, scissor));
        Ok(())
    }

    /// Records a draw on surface `surface`. The surface and the shader must be
    /// live and the mesh ready.
    pub fn draw(&mut self, surface: SurfaceHandle, call: DrawCall) -> (r: Result<(), VideoError>)
        requires
            old(self).wf(),
        ensures
            final(self).wf(),
            ({
                let ok = old(self)@.surfaces.contains_key(surface) && old(self)@.shaders.contains_key(
                    call.shader,
                ) && is_ready(old(self)@.meshes, call.mesh);
                &&& ok ==> r is Ok && final(self)@ == (VideoModel {
                    front: old(self)@.front.push(Command::Draw(surface, call)),
                    ..old(self)@
                })
                &&& !ok ==> r == Err::<(), VideoError>(VideoError::NotFound) && final(self)@ == old(
                    self)@
            }),
    {
        if self.surfaces.get(surface).is_none() || self.shaders.get(call.shader).is_none()
            || self.meshes.get(call.mesh).is_none() {
            return Err(VideoError::NotFound);
        }
        self.push(Command::Draw(surface, call));
        Ok(())
    }

    // ---- lifecycle ----

    /// Start of a tick: the recorded frame goes to the device's side and
    /// producers start on an empty one.
    pub fn on_pre_update(&mut self)
        requires
            old(self).wf(),
        ensures
            final(self).wf(),
            final(self)@ == after_pre_update(old(self)@),
    {
        self.frames.swap();
        let frame = self.frames.write();
        frame.clear();
        assert(self@.front =~= Seq::<Command>::empty());
        assert(self@.front_bytes =~= Seq::<u8>::empty());
    }

    /// Takes the framebuffer size observed this tick; says whether it changed,
    /// in which case the host resizes the window.
    pub fn update_dimensions(&mut self, dimensions: (u32, u32)) -> (r: bool)
        ensures
            final(self).wf() == old(self).wf(),
            r == (dimensions != old(self)@.dimensions),
            final(self)@ == (VideoModel { dimensions, ..old(self)@ }),
    {
        let changed = dimensions.0 != self.last_dimensions.0 || dimensions.1
            != self.last_dimensions.1;
        self.last_dimensions = dimensions;
        changed
    }

    /// End of a tick: the device executes the frame handed over at the last
    /// `on_pre_update`, in recorded order, against the framebuffer size last
    /// given to `update_dimensions`.
    ///
    /// Work recorded during a tick is thus executed at the next tick's
    /// post-update, after the swap that hands it over. When the size changed
    /// this tick, that frame, recorded for the old size, runs against the new one.
    pub fn on_post_update(&mut self, ctx: &mut Context) -> (r: Result<(), BackendError>)
        requires
            old(self).wf(),
        ensures
            final(self)@ == old(self)@,
            final(self).wf(),
            final(ctx).lost() == old(ctx).lost(),
            final(ctx).current() == old(ctx).current(),
            final(ctx).caps() == old(ctx).caps(),
            old(ctx).lost() ==> r == Err::<(), BackendError>(BackendError::ContextLost)
                && final(ctx).device_model() == old(ctx).device_model(),
            !old(ctx).lost() ==> (r is Ok <==> run(
                fresh_frame(old(ctx).device_model(), old(self)@.dimensions),
                old(self)@.back,
                old(self)@.back_bytes.len(),
            ) is Some),
            !old(ctx).lost() && r is Ok ==> final(ctx).device_model() == run(
                fresh_frame(old(ctx).device_model(), old(self)@.dimensions),
                old(self)@.back,
                old(self)@.back_bytes.len(),
            )->Some_0,
            !old(ctx).lost() && r is Err ==> (r->Err_0 matches BackendError::InvalidCommand(k)
                && k < old(self)@.back.len() && run(
                fresh_frame(old(ctx).device_model(), old(self)@.dimensions),
                old(self)@.back.subrange(0, k as int),
                old(self)@.back_bytes.len(),
            ) == Some(final(ctx).device_model())),
    {
        ctx.dispatch(self.frames.back_frame(), self.last_dimensions)
    }
}

/// What asking for a texture from `source` does: a live, unfailed texture from
/// that source is shared; otherwise a fresh pending texture is made and its
/// fetch queued.
pub open spec fn after_texture_request(
    old: VideoModel,
    source: SourceModel,
    r: Result<Handle, VideoError>,
    new: VideoModel,
) -> bool {
    match crate::registry::lookup(old.texture_keys, old.textures, source) {
        Some(h) => r == Ok::<Handle, VideoError>(h) && new == old,
        None => match r {
            Ok(h) => !old.texture_ids.contains(h) && !old.textures.contains_key(h) && new == (VideoModel {
                textures: old.textures.insert(
                    h,
                    EntryModel { state: LoadState::Pending, source: Some(source) },
                ),
                texture_keys: old.texture_keys.push((source, h)),
                texture_requests: old.texture_requests.push((h, source)),
                texture_ids: old.texture_ids.insert(h),
                ..old
            }),
            Err(e) => e == VideoError::Exhausted && new == old,
        },
    }
}

/// The state after surface `h` is deleted: gone, with its deletion recorded if
/// it was live.
pub open spec fn after_delete_surface(o: VideoModel, h: Handle) -> VideoModel {
    if o.surfaces.contains_key(h) {
        VideoModel {
            surfaces: o.surfaces.remove(h),
            front: o.front.push(Command::DeleteSurface(h)),
            ..o
        }
    } else {
        o
    }
}

/// The state after shader `h` is deleted: gone, with its deletion recorded if
/// it was live.
pub open spec fn after_delete_shader(o: VideoModel, h: Handle) -> VideoModel {
    if o.shaders.contains_key(h) {
        VideoModel { shaders: o.shaders.remove(h), front: o.front.push(Command::DeleteShader(h)), ..o }
    } else {
        o
    }
}

/// The state after render texture `h` is deleted: gone, with its deletion
/// recorded if it was live.
pub open spec fn after_delete_render_texture(o: VideoModel, h: Handle) -> VideoModel {
    if o.render_textures.contains_key(h) {
        VideoModel {
            render_textures: o.render_textures.remove(h),
            front: o.front.push(Command::DeleteRenderTexture(h)),
            ..o
        }
    } else {
        o
    }
}

/// The state after mesh `h` is deleted: gone, its sources forgotten, and its
/// deletion recorded if the device holds it.
pub open spec fn after_delete_mesh(o: VideoModel, h: Handle) -> VideoModel {
    VideoModel {
        meshes: o.meshes.remove(h),
        mesh_keys: o.mesh_keys.filter(other_than(h)),
        front: if is_ready(o.meshes, h) {
            o.front.push(Command::DeleteMesh(h))
        } else {
            o.front
        },
        ..o
    }
}

/// The state after texture `h` is deleted: gone, its sources forgotten, and its
/// deletion recorded if the device holds it.
pub open spec fn after_delete_texture(o: VideoModel, h: Handle) -> VideoModel {
    VideoModel {
        textures: o.textures.remove(h),
        texture_keys: o.texture_keys.filter(other_than(h)),
        front: if is_ready(o.textures, h) {
            o.front.push(Command::DeleteTexture(h))
        } else {
            o.front
        },
        ..o
    }
}

/// The state after the start of a tick: the recorded frame is handed to the
/// device's side and recording starts on an empty frame.
pub open spec fn after_pre_update(o: VideoModel) -> VideoModel {
    VideoModel {
        back: o.front,
        back_bytes: o.front_bytes,
        front: Seq::empty(),
        front_bytes: Seq::empty(),
        ..o
    }
}

/// What asking for a mesh from `source` does: a live, unfailed mesh from that
/// source is shared; otherwise a fresh pending mesh is made and its fetch queued.
pub open spec fn after_mesh_request(
    old: VideoModel,
    source: SourceModel,
    r: Result<Handle, VideoError>,
    new: VideoModel,
) -> bool {
    match crate::registry::lookup(old.mesh_keys, old.meshes, source) {
        Some(h) => r == Ok::<Handle, VideoError>(h) && new == old,
        None => match r {
            Ok(h) => !old.mesh_ids.contains(h) && !old.meshes.contains_key(h) && new == (VideoModel {
                meshes: old.meshes.insert(
                    h,
                    EntryModel { state: LoadState::Pending, source: Some(source) },
                ),
                mesh_keys: old.mesh_keys.push((source, h)),
                mesh_requests: old.mesh_requests.push((h, source)),
                mesh_ids: old.mesh_ids.insert(h),
                ..old
            }),
            Err(e) => e == VideoError::Exhausted && new == old,
        },
    }
}

} // verus!
