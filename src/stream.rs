use vstd::prelude::*;

use crate::arena::BufRange;
use crate::assets::{MeshData, MeshHandle, MeshParams};
use crate::frame::Command;
use crate::registry::{EntryModel, LoadState};
use crate::video::{after_delete_mesh, is_ready, mesh_bufs, VideoError, VideoModel, VideoSystem};

verus! {

/// The largest count a streamed buffer can be sized for.
pub const MAX_STREAM_COUNT: u32 = 0x8000_0000;

/// The least power of two that is at least `n`, starting the search at `c`.
pub open spec fn grow(c: nat, n: nat) -> nat
    decreases (if c < n {
        n - c
    } else {
        0
    }),
{
    if c >= n || c == 0 {
        c
    } else {
        grow(2 * c, n)
    }
}

/// The capacity a streamed buffer gets for `n` elements: the least power of two
/// that is at least `n`, and at least one.
pub open spec fn capacity_for(n: nat) -> nat {
    grow(1, n)
}

/// The capacity a streamed buffer gets for `n` elements.
pub fn stream_capacity(n: u32) -> (r: u32)
    requires
        n <= MAX_STREAM_COUNT,
    ensures
        r == capacity_for(n as nat),
        r >= n,
        r >= 1,
{
    let mut c: u32 = 1;
    while c < n
        invariant
            1 <= c,
            n <= MAX_STREAM_COUNT,
            grow(c as nat, n as nat) == capacity_for(n as nat),
        decreases (if c < n {
            n - c
        } else {
            0
        }),
    {
        c = c * 2;
    }
    c
}

/// A mesh whose vertices and indices are replaced every frame. It is updated in
/// place while they fit, and made anew, with capacities rounded up to powers of
/// two, when they outgrow it.
pub struct StreamMesh {
    pub template: MeshParams,
    pub mesh: Option<(u32, u32, MeshHandle)>,
}

/// Whether `n_verts` vertices and `n_idxes` indices fit the current mesh.
pub open spec fn fits(mesh: Option<(u32, u32, MeshHandle)>, n_verts: u32, n_idxes: u32) -> bool {
    mesh matches Some((nv, ni, _)) && nv >= n_verts && ni >= n_idxes
}

impl StreamMesh {
    pub fn new(template: MeshParams) -> (r: StreamMesh)
        ensures
            r.template == template,
            r.mesh is None,
    {
        StreamMesh { template, mesh: None }
    }

    /// Hands the frame's vertices (`n_verts` of them, as bytes) and indices to
    /// the device and returns the mesh that holds them.
    pub fn update(
        &mut self,
        video: &mut VideoSystem,
        verts: &[u8],
        n_verts: u32,
        idxes: &[u8],
        n_idxes: u32,
    ) -> (r: Result<MeshHandle, VideoError>)
        requires
            old(video).wf(),
            n_verts <= MAX_STREAM_COUNT,
            n_idxes <= MAX_STREAM_COUNT,
        ensures
            final(video).wf(),
            final(self).template == old(self).template,
            // Enough room: both buffers are updated in place.
            fits(old(self).mesh, n_verts, n_idxes) ==> {
                let h = old(self).mesh->Some_0.2;
                let o = old(video)@;
                &&& final(self).mesh == old(self).mesh
                &&& is_ready(o.meshes, h) && o.front_bytes.len() + verts@.len() + idxes@.len()
                    <= usize::MAX ==> r == Ok::<MeshHandle, VideoError>(h) && final(video)@
                    == (VideoModel {
                    front: o.front.push(
                        Command::UpdateVertexBuffer(
                            h,
                            0,
                            BufRange { offset: o.front_bytes.len() as usize, len: verts@.len() as usize },
                        ),
                    ).push(
                        Command::UpdateIndexBuffer(
                            h,
                            0,
                            BufRange {
                                offset: (o.front_bytes.len() + verts@.len()) as usize,
                                len: idxes@.len() as usize,
                            },
                        ),
                    ),
                    front_bytes: o.front_bytes + verts@ + idxes@,
                    ..o
                })
                &&& !is_ready(o.meshes, h) ==> r == Err::<MeshHandle, VideoError>(
                    VideoError::NotFound,
                ) && final(video)@ == o
                &&& is_ready(o.meshes, h) && o.front_bytes.len() + verts@.len() + idxes@.len()
                    > usize::MAX ==> r == Err::<MeshHandle, VideoError>(VideoError::ArenaFull)
                    && final(video)@ == o
            },
            // Not enough room: the old mesh is freed and a larger one made.
            !fits(old(self).mesh, n_verts, n_idxes) ==> {
                let cv = capacity_for(n_verts as nat) as u32;
                let ci = capacity_for(n_idxes as nat) as u32;
                let params = MeshParams { num_vertices: cv, num_indices: ci, ..old(self).template };
                let o = old(video)@;
                let freed = match old(self).mesh {
                    Some((_, _, old_h)) => after_delete_mesh(o, old_h),
                    None => o,
                };
                &&& !old(video).meshes_exhausted() && o.front_bytes.len() + verts@.len()
                    + idxes@.len() <= usize::MAX ==> r is Ok
                &&& r matches Ok(h) ==> {
                    &&& final(self).mesh == Some((cv, ci, h))
                    &&& !o.mesh_ids.contains(h)
                    &&& final(video)@ == (VideoModel {
                        meshes: freed.meshes.insert(
                            h,
                            EntryModel { state: LoadState::Ready(params), source: None },
                        ),
                        mesh_ids: freed.mesh_ids.insert(h),
                        front: freed.front.push(
                            Command::CreateMesh(
                                h,
                                params,
                                Some(
                                    mesh_bufs(freed.front_bytes.len(), verts@.len(), idxes@.len()),
                                ),
                            ),
                        ),
                        front_bytes: freed.front_bytes + verts@ + idxes@,
                        ..freed
                    })
                }
            },
            // Creating the larger mesh fails only when no handle is left or the
            // frame's arena is full.
            !fits(old(self).mesh, n_verts, n_idxes) && r is Err ==> old(video).meshes_exhausted()
                || old(video)@.front_bytes.len() + verts@.len() + idxes@.len() > usize::MAX,
    {
        match self.mesh {
            Some((nv, ni, h)) => {
                if nv >= n_verts && ni >= n_idxes {
                    if video.mesh(h).is_none() {
                        return Err(VideoError::NotFound);
                    }
                    let used = video.front_frame().bufs.len();
                    if verts.len() > usize::MAX - used || idxes.len() > usize::MAX - used
                        - verts.len() {
                        return Err(VideoError::ArenaFull);
                    }
                    video.update_vertex_buffer(h, 0, verts)?;
                    video.update_index_buffer(h, 0, idxes)?;
                    return Ok(h);
                }
                video.delete_mesh(h);
            },
            None => {},
        }
        let cv = stream_capacity(n_verts);
        let ci = stream_capacity(n_idxes);
        let params = MeshParams { num_vertices: cv, num_indices: ci, ..self.template };
        let data = MeshData { vptr: slice_to_vec(verts), iptr: slice_to_vec(idxes) };
        let h = video.create_mesh(params, Some(data))?;
        self.mesh = Some((cv, ci, h));
        Ok(h)
    }
}

/// A vector holding the bytes of `s`.
fn slice_to_vec(s: &[u8]) -> (r: Vec<u8>)
    ensures
        r@ == s@,
{
    let mut v: Vec<u8> = Vec::with_capacity(s.len());
    let mut i: usize = 0;
    while i < s.len()
        invariant
            i <= s@.len(),
            v@ == s@.subrange(0, i as int),
        decreases s@.len() - i,
    {
        v.push(s[i]);
        i = i + 1;
        assert(v@ =~= s@.subrange(0, i as int));
    }
    assert(v@ =~= s@);
    v
}

} // verus!
