use vstd::prelude::*;

use crate::arena::{range_within, BufRange};
use crate::backend::{first_missing, meets, Capabilities, Extensions, Missing};
use crate::device::{fresh_frame, run, DeviceModel};
use crate::frame::Command;
use crate::handle::Handle;
use crate::registry::{lookup, other_than, SourceModel};
use crate::video::{
    after_delete_mesh, after_delete_render_texture, after_delete_shader, after_delete_surface,
    after_delete_texture, after_pre_update, after_texture_request, VideoError, VideoModel,
};

verus! {

/// After a resource is deleted its handle finds nothing, and deleting it again
/// changes nothing: no second deletion is recorded.
pub proof fn law_delete_is_final(s: VideoModel, h: Handle)
    ensures
        !after_delete_surface(s, h).surfaces.contains_key(h),
        after_delete_surface(after_delete_surface(s, h), h) == after_delete_surface(s, h),
        !after_delete_shader(s, h).shaders.contains_key(h),
        after_delete_shader(after_delete_shader(s, h), h) == after_delete_shader(s, h),
        !after_delete_render_texture(s, h).render_textures.contains_key(h),
        after_delete_render_texture(after_delete_render_texture(s, h), h)
            == after_delete_render_texture(s, h),
        !after_delete_mesh(s, h).meshes.contains_key(h),
        after_delete_mesh(after_delete_mesh(s, h), h) == after_delete_mesh(s, h),
        !after_delete_texture(s, h).textures.contains_key(h),
        after_delete_texture(after_delete_texture(s, h), h) == after_delete_texture(s, h),
{
    let m = after_delete_mesh(s, h);
    assert(m.meshes.remove(h) =~= m.meshes);
    lemma_filter_twice(s.mesh_keys, other_than(h));
    let t = after_delete_texture(s, h);
    assert(t.textures.remove(h) =~= t.textures);
    lemma_filter_twice(s.texture_keys, other_than(h));
}

proof fn lemma_filter_twice<A>(s: Seq<A>, p: spec_fn(A) -> bool)
    ensures
        s.filter(p).filter(p) == s.filter(p),
    decreases s.len(),
{
    reveal(Seq::filter);
    if s.len() > 0 {
        lemma_filter_twice(s.drop_last(), p);
        let f = s.drop_last().filter(p);
        if p(s.last()) {
            let g = f.push(s.last());
            assert(s.filter(p) == g);
            assert(g.drop_last() =~= f);
            assert(g.last() == s.last());
            assert(g.filter(p) == g.drop_last().filter(p).push(g.last()));
        } else {
            assert(s.filter(p) == f);
        }
    }
}

/// A frame executes as its earlier commands followed by its later ones: the
/// device sees commands in the order they were recorded.
pub proof fn law_frame_order(m: DeviceModel, first: Seq<Command>, then: Seq<Command>, n: nat)
    ensures
        run(m, first + then, n) == match run(m, first, n) {
            Some(m2) => run(m2, then, n),
            None => None,
        },
    decreases then.len(),
{
    if then.len() == 0 {
        assert(first + then =~= first);
    } else {
        assert((first + then).drop_last() =~= first + then.drop_last());
        assert((first + then).last() == then.last());
        law_frame_order(m, first, then.drop_last(), n);
    }
}

/// Two ticks with nothing recorded in between hand the device two empty
/// frames, and an empty frame changes nothing on the device but its draws.
pub proof fn law_empty_frames(s: VideoModel, m: DeviceModel, dimensions: (u32, u32))
    ensures
        ({
            let s1 = after_pre_update(s);
            let s2 = after_pre_update(s1);
            let s3 = after_pre_update(s2);
            &&& s2.back.len() == 0 && s2.back_bytes.len() == 0
            &&& s3.back.len() == 0 && s3.back_bytes.len() == 0
        }),
        run(fresh_frame(m, dimensions), Seq::<Command>::empty(), 0) == Some(fresh_frame(m, dimensions)),
{
}

/// Two requests for one texture source, the second made before the first is
/// settled, get the same texture, and at most one fetch is queued for them.
pub proof fn law_texture_dedup(
    s0: VideoModel,
    source: SourceModel,
    r1: Result<Handle, VideoError>,
    s1: VideoModel,
    r2: Result<Handle, VideoError>,
    s2: VideoModel,
)
    requires
        after_texture_request(s0, source, r1, s1),
        after_texture_request(s1, source, r2, s2),
        r1 is Ok,
    ensures
        r2 == r1,
        s2 == s1,
        s1.texture_requests == s0.texture_requests || s1.texture_requests
            == s0.texture_requests.push((r1->Ok_0, source)),
{
    match lookup(s0.texture_keys, s0.textures, source) {
        Some(h) => {},
        None => {
            let h = r1->Ok_0;
            assert(s1.texture_keys.last() == (source, h));
            assert(s1.textures.contains_key(h));
            assert(lookup(s1.texture_keys, s1.textures, source) == Some(h));
        },
    }
}

/// Bytes appended to a frame's arena are found again, byte for byte, at the
/// range the append returned, whatever is appended after them.
pub proof fn law_arena_round_trip(before: Seq<u8>, data: Seq<u8>, later: Seq<u8>, r: BufRange)
    requires
        r.offset == before.len(),
        r.len == data.len(),
    ensures
        range_within(r, (before + data + later).len()),
        (before + data + later).subrange(r.offset as int, r.offset + r.len) == data,
{
    assert((before + data + later).subrange(r.offset as int, r.offset + r.len) =~= data);
}

/// An implementation below every floor, with no extension, is refused, and the
/// first missing feature is reported.
pub proof fn law_capability_gate(c: Capabilities)
    requires
        !meets(c.version, (1, 5), (2, 0)),
        c.extensions == (Extensions {
            gl_arb_vertex_buffer_object: false,
            gl_arb_map_buffer_range: false,
            gl_arb_shader_objects: false,
            gl_arb_vertex_shader: false,
            gl_arb_fragment_shader: false,
            gl_ext_framebuffer_object: false,
            gl_arb_framebuffer_object: false,
            gl_ext_framebuffer_blit: false,
            gl_arb_uniform_buffer_object: false,
            gl_arb_vertex_array_object: false,
            gl_apple_vertex_array_object: false,
            gl_oes_vertex_array_object: false,
        }),
    ensures
        first_missing(c) == Some(Missing::VertexBufferObjects),
{
}

} // verus!
