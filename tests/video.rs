use crayon::arena::BufRange;
use crayon::assets::{
    BufferHint, IndexFormat, MeshData, MeshParams, Primitive, Rect, RenderTextureFormat,
    RenderTextureParams, ShaderError, ShaderParams, TextureData, TextureFilter, TextureFormat,
    TextureParams,
};
use crayon::backend::{
    BackendError, Capabilities, Context, Extensions, Missing, SwapOutcome, Version,
};
use crayon::device::DrawRecord;
use crayon::frame::{Command, DrawCall, Frame};
use crayon::handle::Handle;
use crayon::registry::{LoadState, Source};
use crayon::stream::{stream_capacity, StreamMesh};
use crayon::surface::{Color, Scissor, SurfaceError, SurfaceSetup, DEPTH_FAR};
use crayon::video::{VideoError, VideoSystem};

fn no_extensions() -> Extensions {
    Extensions {
        gl_arb_vertex_buffer_object: false,
        gl_arb_map_buffer_range: false,
        gl_arb_shader_objects: false,
        gl_arb_vertex_shader: false,
        gl_arb_fragment_shader: false,
        gl_ext_framebuffer_object: false,
        gl_arb_framebuffer_object: false,
        gl_ext_framebuffer_blit: false,
        gl_arb_uniform_buffer_object: false,
        gl_arb_vertex_array_object: false,
        gl_apple_vertex_array_object: false,
        gl_oes_vertex_array_object: false,
    }
}

fn gl33() -> Capabilities {
    Capabilities { version: Version::GL(3, 3), extensions: no_extensions() }
}

fn mesh_params(num_vertices: u32, num_indices: u32) -> MeshParams {
    MeshParams {
        hint: BufferHint::Stream,
        primitive: Primitive::Triangles,
        index_format: IndexFormat::U16,
        vertex_size: 4,
        num_vertices,
        num_indices,
    }
}

fn shader_params() -> ShaderParams {
    ShaderParams { attributes: 1, uniform_variables: vec!["matrix".to_string()] }
}

fn texture_params() -> TextureParams {
    TextureParams { format: TextureFormat::U8U8U8U8, filter: TextureFilter::Nearest, width: 2, height: 1 }
}

#[test]
fn deleted_surface_is_absent_and_second_delete_records_nothing() {
    let mut video = VideoSystem::headless();
    let h = video.create_surface(SurfaceSetup::default()).unwrap();
    assert!(video.surface(h).is_some());
    video.delete_surface(h);
    assert!(video.surface(h).is_none());
    assert_eq!(video.front_frame().cmds.len(), 2);
    video.delete_surface(h);
    assert_eq!(video.front_frame().cmds.len(), 2);
    assert!(matches!(video.front_frame().cmds[1], Command::DeleteSurface(d) if d == h));
}

#[test]
fn reused_slot_gets_a_new_generation() {
    let mut video = VideoSystem::headless();
    let a = video.create_surface(SurfaceSetup::default()).unwrap();
    video.delete_surface(a);
    let b = video.create_surface(SurfaceSetup::default()).unwrap();
    assert_eq!(a.index, b.index);
    assert_ne!(a.generation, b.generation);
    assert!(video.surface(a).is_none());
    assert!(video.surface(b).is_some());
    video.delete_surface(a);
    assert!(video.surface(b).is_some());
}

#[test]
fn every_kind_deletes_once() {
    let mut video = VideoSystem::headless();
    let s = video.create_shader(shader_params(), "vs".to_string(), "fs".to_string()).unwrap();
    let m = video.create_mesh(mesh_params(4, 6), None).unwrap();
    let t = video.create_texture(texture_params(), None).unwrap();
    let rt = video
        .create_render_texture(RenderTextureParams {
            format: RenderTextureFormat::Rgba8,
            width: 8,
            height: 8,
            sampler: true,
        })
        .unwrap();
    let before = video.front_frame().cmds.len();
    for _ in 0..2 {
        video.delete_shader(s);
        video.delete_mesh(m);
        video.delete_texture(t);
        video.delete_render_texture(rt);
    }
    assert_eq!(video.front_frame().cmds.len(), before + 4);
    assert!(video.shader(s).is_none());
    assert!(video.mesh(m).is_none());
    assert!(video.texture(t).is_none());
    assert!(video.render_texture(rt).is_none());
}

#[test]
fn commands_keep_call_order() {
    let mut video = VideoSystem::headless();
    let surface = video.create_surface(SurfaceSetup::default()).unwrap();
    let shader = video.create_shader(shader_params(), "vs".to_string(), "fs".to_string()).unwrap();
    let mesh = video.create_mesh(mesh_params(4, 6), None).unwrap();
    video.update_vertex_buffer(mesh, 0, &[1, 2, 3]).unwrap();
    video.delete_surface(surface);
    let cmds = &video.front_frame().cmds;
    assert_eq!(cmds.len(), 5);
    assert!(matches!(cmds[0], Command::CreateSurface(h, _) if h == surface));
    assert!(matches!(cmds[1], Command::CreateShader(h, _, _, _) if h == shader));
    assert!(matches!(cmds[2], Command::CreateMesh(h, _, None) if h == mesh));
    assert!(matches!(cmds[3], Command::UpdateVertexBuffer(h, 0, _) if h == mesh));
    assert!(matches!(cmds[4], Command::DeleteSurface(h) if h == surface));

    let mut ctx = Context::new(gl33()).unwrap();
    video.on_pre_update();
    assert_eq!(video.back_frame().cmds.len(), 5);
    assert_eq!(video.front_frame().cmds.len(), 0);
    assert_eq!(video.on_post_update(&mut ctx), Ok(()));
}

#[test]
fn two_empty_ticks_dispatch_empty_frames() {
    let mut video = VideoSystem::headless();
    let mut ctx = Context::new(gl33()).unwrap();
    video.create_surface(SurfaceSetup::default()).unwrap();
    video.on_pre_update();
    assert_eq!(video.back_frame().cmds.len(), 1);
    assert_eq!(video.on_post_update(&mut ctx), Ok(()));
    video.on_pre_update();
    assert_eq!(video.back_frame().cmds.len(), 0);
    assert_eq!(video.back_frame().bufs.len(), 0);
    assert_eq!(video.on_post_update(&mut ctx), Ok(()));
    video.on_pre_update();
    assert_eq!(video.back_frame().cmds.len(), 0);
    assert_eq!(video.back_frame().bufs.len(), 0);
    assert_eq!(video.on_post_update(&mut ctx), Ok(()));
    assert_eq!(ctx.device().draws().len(), 0);
}

#[test]
fn same_texture_source_shares_one_handle_and_one_fetch() {
    let mut video = VideoSystem::headless();
    let a = video.create_texture_from("res:font.png".to_string()).unwrap();
    let b = video.create_texture_from("res:font.png".to_string()).unwrap();
    let c = video.create_texture_from("res:other.png".to_string()).unwrap();
    assert_eq!(a, b);
    assert_ne!(a, c);
    let requests = video.take_texture_requests();
    assert_eq!(requests.len(), 2);
    assert_eq!(requests[0].handle, a);
    assert!(matches!(&requests[0].source, Source::Url(u) if u == "res:font.png"));
    assert_eq!(requests[1].handle, c);
    assert_eq!(video.texture_state(a), Some(LoadState::Pending));
    assert!(video.texture(a).is_none());
    assert!(video.take_texture_requests().is_empty());
}

#[test]
fn same_mesh_uuid_shares_one_handle() {
    let mut video = VideoSystem::headless();
    let a = video.create_mesh_from_uuid(0x1234_5678_9abc_def0_1234_5678_9abc_def0).unwrap();
    let b = video.create_mesh_from_uuid(0x1234_5678_9abc_def0_1234_5678_9abc_def0).unwrap();
    let c = video.create_mesh_from("res:cube.obj".to_string()).unwrap();
    assert_eq!(a, b);
    assert_ne!(a, c);
    assert_eq!(video.take_mesh_requests().len(), 2);
}

#[test]
fn loaded_texture_becomes_ready_and_is_created() {
    let mut video = VideoSystem::headless();
    let a = video.create_texture_from("res:font.png".to_string()).unwrap();
    let params = texture_params();
    let data = TextureData { bytes: vec![1, 2, 3, 4, 5, 6, 7, 8] };
    assert_eq!(video.texture_loaded(a, params, data), Ok(()));
    assert_eq!(video.texture(a), Some(params));
    let cmds = &video.front_frame().cmds;
    assert_eq!(cmds.len(), 1);
    assert!(matches!(cmds[0], Command::CreateTexture(h, _, Some(r)) if h == a && r.len == 8));
    assert_eq!(video.texture_loaded(a, params, TextureData { bytes: vec![] }), Err(VideoError::NotFound));
    // A ready source is shared too.
    assert_eq!(video.create_texture_from("res:font.png".to_string()), Ok(a));
}

#[test]
fn failed_load_is_seen_by_all_and_a_new_request_retries() {
    let mut video = VideoSystem::headless();
    let a = video.create_mesh_from("res:missing.obj".to_string()).unwrap();
    let b = video.create_mesh_from("res:missing.obj".to_string()).unwrap();
    assert_eq!(a, b);
    assert_eq!(video.mesh_failed(a), Ok(()));
    assert_eq!(video.mesh_state(b), Some(LoadState::Failed));
    assert_eq!(video.mesh_failed(a), Err(VideoError::NotFound));
    assert_eq!(video.take_mesh_requests().len(), 1);
    let c = video.create_mesh_from("res:missing.obj".to_string()).unwrap();
    assert_ne!(a, c);
    assert_eq!(video.take_mesh_requests().len(), 1);
    assert!(video.front_frame().cmds.is_empty());
}

#[test]
fn loaded_mesh_records_its_data() {
    let mut video = VideoSystem::headless();
    let a = video.create_mesh_from("res:quad.obj".to_string()).unwrap();
    assert_eq!(video.update_vertex_buffer(a, 0, &[1]), Err(VideoError::NotFound));
    let data = MeshData { vptr: vec![1, 2, 3, 4], iptr: vec![5, 6] };
    assert_eq!(video.mesh_loaded(a, mesh_params(1, 2), data), Ok(()));
    assert_eq!(video.mesh(a), Some(mesh_params(1, 2)));
    let frame = video.front_frame();
    match &frame.cmds[0] {
        Command::CreateMesh(h, _, Some(bufs)) => {
            assert_eq!(*h, a);
            assert_eq!(frame.bufs.read(bufs.vertices), vec![1, 2, 3, 4]);
            assert_eq!(frame.bufs.read(bufs.indices), vec![5, 6]);
        }
        _ => panic!("expected a mesh creation with data"),
    }
}

#[test]
fn update_payloads_round_trip_through_the_arena() {
    let mut video = VideoSystem::headless();
    let mesh = video
        .create_mesh(mesh_params(4, 6), Some(MeshData { vptr: vec![9, 9], iptr: vec![8] }))
        .unwrap();
    let texture = video.create_texture(texture_params(), None).unwrap();
    video.update_vertex_buffer(mesh, 16, &[10, 20, 30]).unwrap();
    video
        .update_texture(texture, Rect { min_x: 0, min_y: 0, max_x: 1, max_y: 1 }, &[40, 50, 60, 70])
        .unwrap();
    video.update_index_buffer(mesh, 2, &[80]).unwrap();
    video.on_pre_update();
    let frame = video.back_frame();
    let mut seen: Vec<Vec<u8>> = Vec::new();
    for cmd in frame.cmds.iter() {
        match cmd {
            Command::UpdateVertexBuffer(_, off, r) => {
                assert_eq!(*off, 16);
                seen.push(frame.bufs.read(*r));
            }
            Command::UpdateTexture(_, _, r) => seen.push(frame.bufs.read(*r)),
            Command::UpdateIndexBuffer(_, off, r) => {
                assert_eq!(*off, 2);
                seen.push(frame.bufs.read(*r));
            }
            _ => {}
        }
    }
    assert_eq!(seen, vec![vec![10, 20, 30], vec![40, 50, 60, 70], vec![80]]);
    assert_eq!(frame.bufs.len(), 3 + 3 + 4 + 1);
}

#[test]
fn update_of_unknown_handle_is_not_found() {
    let mut video = VideoSystem::headless();
    let stale = Handle::new(7, 0);
    assert_eq!(video.update_vertex_buffer(stale, 0, &[1]), Err(VideoError::NotFound));
    assert_eq!(video.update_index_buffer(stale, 0, &[1]), Err(VideoError::NotFound));
    assert_eq!(
        video.update_texture(stale, Rect { min_x: 0, min_y: 0, max_x: 1, max_y: 1 }, &[1]),
        Err(VideoError::NotFound)
    );
    assert!(video.front_frame().cmds.is_empty());
    assert_eq!(video.front_frame().bufs.len(), 0);
}

#[test]
fn capabilities_below_every_floor_are_refused() {
    let caps = Capabilities { version: Version::GL(1, 0), extensions: no_extensions() };
    assert_eq!(
        Context::new(caps).err(),
        Some(BackendError::Unsupported(Missing::VertexBufferObjects))
    );
    let es1 = Capabilities { version: Version::ES(1, 1), extensions: no_extensions() };
    assert_eq!(
        Context::check_minimal_requirements(&es1),
        Err(Missing::VertexBufferObjects)
    );
}

#[test]
fn each_floor_reports_its_feature() {
    let mut e = no_extensions();
    e.gl_arb_vertex_buffer_object = true;
    e.gl_arb_map_buffer_range = true;
    let c = |e: Extensions| Capabilities { version: Version::GL(1, 0), extensions: e };
    assert_eq!(Context::check_minimal_requirements(&c(e)), Err(Missing::Shaders));
    e.gl_arb_shader_objects = true;
    e.gl_arb_vertex_shader = true;
    e.gl_arb_fragment_shader = true;
    assert_eq!(Context::check_minimal_requirements(&c(e)), Err(Missing::Framebuffers));
    e.gl_ext_framebuffer_object = true;
    assert_eq!(Context::check_minimal_requirements(&c(e)), Err(Missing::FramebufferBlit));
    e.gl_ext_framebuffer_blit = true;
    assert_eq!(Context::check_minimal_requirements(&c(e)), Err(Missing::UniformBufferObjects));
    e.gl_arb_uniform_buffer_object = true;
    assert_eq!(Context::check_minimal_requirements(&c(e)), Err(Missing::VertexArrayObjects));
    e.gl_apple_vertex_array_object = true;
    assert_eq!(Context::check_minimal_requirements(&c(e)), Ok(()));
}

#[test]
fn versions_meet_floors_without_extensions() {
    let at = |v: Version| Context::check_minimal_requirements(&Capabilities { version: v, extensions: no_extensions() });
    assert_eq!(at(Version::GL(3, 3)), Ok(()));
    assert_eq!(at(Version::GL(3, 1)), Ok(()));
    assert_eq!(at(Version::GL(3, 0)), Err(Missing::UniformBufferObjects));
    assert_eq!(at(Version::GL(2, 1)), Err(Missing::Framebuffers));
    assert_eq!(at(Version::ES(3, 0)), Ok(()));
    assert_eq!(at(Version::ES(2, 0)), Err(Missing::UniformBufferObjects));
    assert_eq!(at(Version::GL(4, 0)), Ok(()));
}

#[test]
fn lost_context_fails_fast_until_rebuilt() {
    let mut ctx = Context::new(gl33()).unwrap();
    assert!(!ctx.is_context_lost());
    assert!(ctx.is_current());
    assert_eq!(ctx.swap_buffers(SwapOutcome::Done), Ok(()));
    assert_eq!(ctx.swap_buffers(SwapOutcome::Failed), Err(BackendError::SwapFailed));
    assert!(!ctx.is_context_lost());
    assert_eq!(ctx.swap_buffers(SwapOutcome::ContextLost), Err(BackendError::ContextLost));
    assert!(ctx.is_context_lost());
    assert_eq!(ctx.swap_buffers(SwapOutcome::Done), Err(BackendError::ContextLost));
    let mut video = VideoSystem::headless();
    video.create_surface(SurfaceSetup::default()).unwrap();
    video.on_pre_update();
    assert_eq!(video.on_post_update(&mut ctx), Err(BackendError::ContextLost));
    assert!(ctx.is_context_lost());
    assert_eq!(ctx.rebuild(), Ok(()));
    assert!(ctx.is_current());
    assert!(!ctx.is_context_lost());
    assert_eq!(ctx.capabilities().version, Version::GL(3, 3));
    assert_eq!(video.on_post_update(&mut ctx), Ok(()));
}

#[test]
fn make_current_records_the_outcome() {
    let mut ctx = Context::new(gl33()).unwrap();
    assert_eq!(ctx.make_current(false), Err(BackendError::MakeCurrentFailed));
    assert!(!ctx.is_current());
    assert_eq!(ctx.make_current(true), Ok(()));
    assert!(ctx.is_current());
}

#[test]
fn sequenced_surface_executes_draws_in_submission_order() {
    let mut video = VideoSystem::headless();
    let mut ctx = Context::new(gl33()).unwrap();
    let mut setup = SurfaceSetup::default();
    setup.set_sequence(true);
    let surface = video.create_surface(setup).unwrap();
    let shader = video.create_shader(shader_params(), "vs".to_string(), "fs".to_string()).unwrap();
    let mesh = video.create_mesh(mesh_params(4, 6), None).unwrap();
    let a = Scissor::Enable((0, 0), (10, 10));
    let b = Scissor::Enable((5, 5), (20, 20));
    let d1 = DrawCall { shader, mesh, from: 0, len: 3 };
    let d2 = DrawCall { shader, mesh, from: 3, len: 3 };
    video.set_scissor(surface, a).unwrap();
    video.draw(surface, d1).unwrap();
    video.set_scissor(surface, b).unwrap();
    video.draw(surface, d2).unwrap();
    video.on_pre_update();
    assert_eq!(video.on_post_update(&mut ctx), Ok(()));
    let draws = ctx.device().draws().clone();
    assert_eq!(
        draws,
        vec![
            DrawRecord { surface, scissor: a, call: d1 },
            DrawRecord { surface, scissor: b, call: d2 },
        ]
    );
}

#[test]
fn draw_needs_live_resources() {
    let mut video = VideoSystem::headless();
    let surface = video.create_surface(SurfaceSetup::default()).unwrap();
    let shader = video.create_shader(shader_params(), "vs".to_string(), "fs".to_string()).unwrap();
    let pending = video.create_mesh_from("res:late.obj".to_string()).unwrap();
    let call = DrawCall { shader, mesh: pending, from: 0, len: 3 };
    assert_eq!(video.draw(surface, call), Err(VideoError::NotFound));
    assert_eq!(video.set_scissor(Handle::new(9, 0), Scissor::Disable), Err(VideoError::NotFound));
}

#[test]
fn device_rejects_commands_on_objects_it_does_not_hold() {
    let mut ctx = Context::new(gl33()).unwrap();
    let mut frame = Frame::with_capacity(16);
    frame.push(Command::CreateSurface(Handle::new(0, 0), SurfaceSetup::default()));
    frame.push(Command::DeleteShader(Handle::new(0, 0)));
    assert_eq!(ctx.dispatch(&frame, (0, 0)), Err(BackendError::InvalidCommand(1)));
    let mut frame = Frame::with_capacity(16);
    frame.push(Command::UpdateTexture(
        Handle::new(3, 0),
        Rect { min_x: 0, min_y: 0, max_x: 1, max_y: 1 },
        BufRange { offset: 0, len: 4 },
    ));
    assert_eq!(ctx.dispatch(&frame, (0, 0)), Err(BackendError::InvalidCommand(0)));
}

#[test]
fn create_then_delete_in_one_frame_is_legal() {
    let mut video = VideoSystem::headless();
    let mut ctx = Context::new(gl33()).unwrap();
    let s = video.create_surface(SurfaceSetup::default()).unwrap();
    video.delete_surface(s);
    let s2 = video.create_surface(SurfaceSetup::default()).unwrap();
    video.on_pre_update();
    assert_eq!(video.on_post_update(&mut ctx), Ok(()));
    assert_eq!(s.index, s2.index);
    video.delete_surface(s2);
    video.on_pre_update();
    assert_eq!(video.on_post_update(&mut ctx), Ok(()));
}

#[test]
fn stream_mesh_updates_in_place_then_regrows() {
    let mut video = VideoSystem::headless();
    let first = video.create_mesh(mesh_params(10, 10), None).unwrap();
    let mut stream = StreamMesh::new(mesh_params(0, 0));
    stream.mesh = Some((10, 10, first));
    let before = video.front_frame().cmds.len();

    let h = stream.update(&mut video, &[0u8; 32], 8, &[0u8; 8], 4).unwrap();
    assert_eq!(h, first);
    let cmds = &video.front_frame().cmds;
    assert_eq!(cmds.len(), before + 2);
    assert!(matches!(cmds[before], Command::UpdateVertexBuffer(m, 0, _) if m == first));
    assert!(matches!(cmds[before + 1], Command::UpdateIndexBuffer(m, 0, _) if m == first));
    assert_eq!(stream.mesh, Some((10, 10, first)));

    let h2 = stream.update(&mut video, &[0u8; 48], 12, &[0u8; 8], 4).unwrap();
    assert_ne!(h2, first);
    assert!(video.mesh(first).is_none());
    assert_eq!(stream.mesh, Some((16, 4, h2)));
    assert_eq!(video.mesh(h2).map(|p| (p.num_vertices, p.num_indices)), Some((16, 4)));
    let cmds = &video.front_frame().cmds;
    assert_eq!(cmds.len(), before + 4);
    assert!(matches!(cmds[before + 2], Command::DeleteMesh(m) if m == first));
    assert!(matches!(cmds[before + 3], Command::CreateMesh(m, _, Some(_)) if m == h2));
}

#[test]
fn stream_capacity_rounds_up_to_powers_of_two() {
    assert_eq!(stream_capacity(0), 1);
    assert_eq!(stream_capacity(1), 1);
    assert_eq!(stream_capacity(3), 4);
    assert_eq!(stream_capacity(8), 8);
    assert_eq!(stream_capacity(12), 16);
    assert_eq!(stream_capacity(0x8000_0000), 0x8000_0000);
}

#[test]
fn shader_setups_are_checked() {
    let mut video = VideoSystem::headless();
    let empty_layout = ShaderParams { attributes: 0, uniform_variables: vec![] };
    assert_eq!(
        video.create_shader(empty_layout, "vs".to_string(), "fs".to_string()),
        Err(VideoError::Shader(ShaderError::EmptyLayout))
    );
    assert_eq!(
        video.create_shader(shader_params(), String::new(), "fs".to_string()),
        Err(VideoError::Shader(ShaderError::EmptySource))
    );
    let twice = ShaderParams {
        attributes: 3,
        uniform_variables: vec!["a".to_string(), "b".to_string(), "a".to_string()],
    };
    assert_eq!(
        video.create_shader(twice, "vs".to_string(), "fs".to_string()),
        Err(VideoError::Shader(ShaderError::DuplicateUniform))
    );
    assert!(video.front_frame().cmds.is_empty());
    let h = video.create_shader(shader_params(), "vs".to_string(), "fs".to_string()).unwrap();
    let p = video.shader(h).unwrap();
    assert_eq!(p.attributes, 1);
    assert_eq!(p.uniform_variables, vec!["matrix".to_string()]);
}

#[test]
fn surface_setup_defaults_and_setters() {
    let mut s = SurfaceSetup::default();
    assert_eq!(s.clear_color, Some(Color::black()));
    assert_eq!(s.clear_depth, Some(DEPTH_FAR));
    assert_eq!(s.clear_stencil, None);
    assert_eq!(s.order, 0);
    assert!(!s.sequence);
    s.set_order(7);
    s.set_clear(Some(Color::white()), None, Some(3));
    s.set_sequence(true);
    assert_eq!(s.order, 7);
    assert_eq!(s.clear_color, Some(Color { r: 255, g: 255, b: 255, a: 255 }));
    assert_eq!(s.clear_depth, None);
    assert_eq!(s.clear_stencil, Some(3));
    assert!(s.sequence);
}

#[test]
fn surface_attachments_are_bounded() {
    let mut s = SurfaceSetup::default();
    let colors: Vec<Handle> = (0..3).map(|i| Handle::new(i, 0)).collect();
    assert_eq!(s.set_attachments(&colors, Some(Handle::new(9, 1))), Ok(()));
    assert_eq!(s.colors[0], Some(Handle::new(0, 0)));
    assert_eq!(s.colors[2], Some(Handle::new(2, 0)));
    assert_eq!(s.colors[3], None);
    assert_eq!(s.depth_stencil, Some(Handle::new(9, 1)));
    let many: Vec<Handle> = (0..8).map(|i| Handle::new(i, 0)).collect();
    assert_eq!(s.set_attachments(&many, None), Err(SurfaceError::TooManyColorAttachments));
    assert_eq!(s.colors[3], None);
    assert_eq!(s.depth_stencil, Some(Handle::new(9, 1)));
}

#[test]
fn dimensions_change_is_reported() {
    let mut video = VideoSystem::new((640, 480));
    assert!(!video.update_dimensions((640, 480)));
    assert!(video.update_dimensions((800, 480)));
    assert!(!video.update_dimensions((800, 480)));
}

#[test]
fn arena_append_reports_offsets() {
    let mut frame = Frame::with_capacity(0);
    let a = frame.bufs.extend_from_slice(&[1, 2]).unwrap();
    let b = frame.bufs.extend_from_slice(&[3]).unwrap();
    assert_eq!(a, BufRange { offset: 0, len: 2 });
    assert_eq!(b, BufRange { offset: 2, len: 1 });
    assert_eq!(frame.bufs.read(a), vec![1, 2]);
    frame.clear();
    assert_eq!(frame.bufs.len(), 0);
    assert!(frame.cmds.is_empty());
}

#[test]
fn deleted_source_texture_is_fetched_again() {
    let mut video = VideoSystem::headless();
    let a = video.create_texture_from("res:font.png".to_string()).unwrap();
    assert_eq!(video.take_texture_requests().len(), 1);
    video.delete_texture(a);
    assert!(video.texture_state(a).is_none());
    assert!(video.front_frame().cmds.is_empty());
    let b = video.create_texture_from("res:font.png".to_string()).unwrap();
    assert_ne!(a, b);
    assert_eq!(video.take_texture_requests().len(), 1);
}

#[test]
fn frame_runs_against_the_latest_framebuffer_size() {
    let mut video = VideoSystem::new((640, 480));
    let mut ctx = Context::new(gl33()).unwrap();
    video.create_surface(SurfaceSetup::default()).unwrap();
    video.on_pre_update();
    assert!(video.update_dimensions((800, 600)));
    assert_eq!(video.on_post_update(&mut ctx), Ok(()));
    assert_eq!(ctx.device().dimensions(), (800, 600));
}

#[test]
fn invalid_command_keeps_the_commands_before_it() {
    let mut ctx = Context::new(gl33()).unwrap();
    let mut frame = Frame::with_capacity(0);
    let s = Handle::new(0, 0);
    frame.push(Command::CreateSurface(s, SurfaceSetup::default()));
    frame.push(Command::Draw(s, DrawCall { shader: Handle::new(0, 0), mesh: Handle::new(0, 0), from: 0, len: 3 }));
    assert_eq!(ctx.dispatch(&frame, (0, 0)), Err(BackendError::InvalidCommand(1)));
    let mut frame = Frame::with_capacity(0);
    frame.push(Command::DeleteSurface(s));
    assert_eq!(ctx.dispatch(&frame, (0, 0)), Ok(()));
}

#[test]
fn stream_mesh_in_place_needs_a_ready_mesh() {
    let mut video = VideoSystem::headless();
    let pending = video.create_mesh_from("res:late.obj".to_string()).unwrap();
    let mut stream = StreamMesh::new(mesh_params(0, 0));
    stream.mesh = Some((4, 4, pending));
    assert_eq!(stream.update(&mut video, &[0u8; 8], 2, &[0u8; 4], 2), Err(VideoError::NotFound));
    assert!(video.front_frame().cmds.is_empty());
    assert_eq!(video.front_frame().bufs.len(), 0);
}
