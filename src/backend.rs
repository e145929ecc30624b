use vstd::prelude::*;

use crate::device::{fresh_frame, run, Device, DeviceModel};
use crate::frame::Frame;

verus! {

/// The version of the native graphics API: desktop GL or GL ES, major and minor.
#[derive(Clone, Copy, Debug, PartialEq, Eq, Structural)]
pub enum Version {
    GL(u8, u8),
    ES(u8, u8),
}

/// Whether `(major, minor)` is at least `(fmaj, fmin)`.
pub open spec fn at_least(major: u8, minor: u8, fmaj: u8, fmin: u8) -> bool {
    major > fmaj || (major == fmaj && minor >= fmin)
}

/// Whether `v` reaches the desktop floor `gl` or, for GL ES, the floor `es`.
pub open spec fn meets(v: Version, gl: (u8, u8), es: (u8, u8)) -> bool {
    match v {
        Version::GL(a, b) => at_least(a, b, gl.0, gl.1),
        Version::ES(a, b) => at_least(a, b, es.0, es.1),
    }
}

fn version_meets(v: Version, gl_major: u8, gl_minor: u8, es_major: u8, es_minor: u8) -> (r: bool)
    ensures
        r == meets(v, (gl_major, gl_minor), (es_major, es_minor)),
{
    match v {
        Version::GL(a, b) => a > gl_major || (a == gl_major && b >= gl_minor),
        Version::ES(a, b) => a > es_major || (a == es_major && b >= es_minor),
    }
}

/// The extensions that can stand in for a version floor.
#[derive(Clone, Copy, Debug, PartialEq, Eq, Structural)]
pub struct Extensions {
    pub gl_arb_vertex_buffer_object: bool,
    pub gl_arb_map_buffer_range: bool,
    pub gl_arb_shader_objects: bool,
    pub gl_arb_vertex_shader: bool,
    pub gl_arb_fragment_shader: bool,
    pub gl_ext_framebuffer_object: bool,
    pub gl_arb_framebuffer_object: bool,
    pub gl_ext_framebuffer_blit: bool,
    pub gl_arb_uniform_buffer_object: bool,
    pub gl_arb_vertex_array_object: bool,
    pub gl_apple_vertex_array_object: bool,
    pub gl_oes_vertex_array_object: bool,
}

/// What the native implementation offers.
#[derive(Clone, Copy, Debug, PartialEq, Eq, Structural)]
pub struct Capabilities {
    pub version: Version,
    pub extensions: Extensions,
}

/// A feature that the native implementation lacks.
#[derive(Clone, Copy, Debug, PartialEq, Eq, Structural)]
pub enum Missing {
    VertexBufferObjects,
    Shaders,
    Framebuffers,
    FramebufferBlit,
    UniformBufferObjects,
    VertexArrayObjects,
}

/// The first feature, in the order they are checked, that neither the version
/// nor an extension provides.
pub open spec fn first_missing(c: Capabilities) -> Option<Missing> {
    let v = c.version;
    let e = c.extensions;
    if !meets(v, (1, 5), (2, 0)) && !(e.gl_arb_vertex_buffer_object && e.gl_arb_map_buffer_range) {
        Some(Missing::VertexBufferObjects)
    } else if !meets(v, (2, 0), (2, 0)) && !(e.gl_arb_shader_objects && e.gl_arb_vertex_shader
        && e.gl_arb_fragment_shader) {
        Some(Missing::Shaders)
    } else if !meets(v, (3, 0), (2, 0)) && !(e.gl_ext_framebuffer_object
        || e.gl_arb_framebuffer_object) {
        Some(Missing::Framebuffers)
    } else if !meets(v, (3, 0), (2, 0)) && !e.gl_ext_framebuffer_blit {
        Some(Missing::FramebufferBlit)
    } else if !meets(v, (3, 1), (3, 0)) && !e.gl_arb_uniform_buffer_object {
        Some(Missing::UniformBufferObjects)
    } else if !meets(v, (3, 0), (3, 0)) && !(e.gl_arb_vertex_array_object
        || e.gl_apple_vertex_array_object || e.gl_oes_vertex_array_object) {
        Some(Missing::VertexArrayObjects)
    } else {
        None
    }
}

/// Errors of the backend.
#[derive(Clone, Copy, Debug, PartialEq, Eq, Structural)]
pub enum BackendError {
    /// The implementation lacks a required feature.
    Unsupported(Missing),
    /// The context was lost; it must be rebuilt before further use.
    ContextLost,
    /// The native buffer swap failed for another reason.
    SwapFailed,
    /// The context could not be made current.
    MakeCurrentFailed,
    /// The command at this position of the frame names an object the device
    /// does not hold, or data outside the frame's arena.
    InvalidCommand(usize),
}

/// What the native buffer swap reported.
#[derive(Clone, Copy, Debug, PartialEq, Eq, Structural)]
pub enum SwapOutcome {
    Done,
    ContextLost,
    Failed,
}

/// The graphics context: capabilities, whether it is current and whether it was
/// lost, and the device that executes frames.
pub struct Context {
    current: bool,
    context_lost: bool,
    capabilities: Capabilities,
    device: Device,
}

impl Context {
    pub closed spec fn lost(&self) -> bool {
        self.context_lost
    }

    pub closed spec fn current(&self) -> bool {
        self.current
    }

    pub closed spec fn caps(&self) -> Capabilities {
        self.capabilities
    }

    pub closed spec fn device_model(&self) -> DeviceModel {
        self.device@
    }

    /// Checks `caps` against the feature floors, in a fixed order.
    pub fn check_minimal_requirements(caps: &Capabilities) -> (r: Result<(), Missing>)
        ensures
            match first_missing(*caps) {
                Some(m) => r == Err::<(), Missing>(m),
                None => r is Ok,
            },
    {
        let v = caps.version;
        let e = &caps.extensions;
        if !version_meets(v, 1, 5, 2, 0) && !(e.gl_arb_vertex_buffer_object
            && e.gl_arb_map_buffer_range) {
            return Err(Missing::VertexBufferObjects);
        }
        if !version_meets(v, 2, 0, 2, 0) && !(e.gl_arb_shader_objects && e.gl_arb_vertex_shader
            && e.gl_arb_fragment_shader) {
            return Err(Missing::Shaders);
        }
        if !version_meets(v, 3, 0, 2, 0) && !(e.gl_ext_framebuffer_object
            || e.gl_arb_framebuffer_object) {
            return Err(Missing::Framebuffers);
        }
        if !version_meets(v, 3, 0, 2, 0) && !e.gl_ext_framebuffer_blit {
            return Err(Missing::FramebufferBlit);
        }
        if !version_meets(v, 3, 1, 3, 0) && !e.gl_arb_uniform_buffer_object {
            return Err(Missing::UniformBufferObjects);
        }
        if !version_meets(v, 3, 0, 3, 0) && !(e.gl_arb_vertex_array_object
            || e.gl_apple_vertex_array_object || e.gl_oes_vertex_array_object) {
            return Err(Missing::VertexArrayObjects);
        }
        Ok(())
    }

    /// Makes an active context over an implementation with `capabilities`, made
    /// current on this thread; refuses one that lacks a required feature.
    pub fn new(capabilities: Capabilities) -> (r: Result<Context, BackendError>)
        ensures
            match first_missing(capabilities) {
                Some(m) => r == Err::<Context, BackendError>(BackendError::Unsupported(m)),
                None => r matches Ok(c) && !c.lost() && c.current() && c.caps() == capabilities
                    && c.device_model().surfaces.is_empty() && c.device_model().shaders.is_empty()
                    && c.device_model().meshes.is_empty() && c.device_model().textures.is_empty()
                    && c.device_model().render_textures.is_empty()
                    && c.device_model().draws.len() == 0,
            },
    {
        match Context::check_minimal_requirements(&capabilities) {
            Err(m) => Err(BackendError::Unsupported(m)),
            Ok(()) => Ok(
                Context { current: true, context_lost: false, capabilities, device: Device::new() },
            ),
        }
    }

    /// Rebuilds a lost context: the device starts empty and the context is
    /// active and current again. The capabilities negotiated at startup are kept.
    pub fn rebuild(&mut self) -> (r: Result<(), BackendError>)
        ensures
            r is Ok,
            !final(self).lost(),
            final(self).current(),
            final(self).caps() == old(self).caps(),
            final(self).device_model().surfaces.is_empty(),
            final(self).device_model().shaders.is_empty(),
            final(self).device_model().meshes.is_empty(),
            final(self).device_model().textures.is_empty(),
            final(self).device_model().render_textures.is_empty(),
            final(self).device_model().draws.len() == 0,
    {
        self.current = true;
        self.context_lost = false;
        self.device = Device::new();
        Ok(())
    }

    /// The device that executes frames.
    pub fn device(&mut self) -> (r: &mut Device)
        ensures
            r@ == old(self).device_model(),
            final(self).device_model() == final(r)@,
            final(self).lost() == old(self).lost(),
            final(self).current() == old(self).current(),
            final(self).caps() == old(self).caps(),
    {
        &mut self.device
    }

    pub fn capabilities(&self) -> (r: &Capabilities)
        ensures
            *r == self.caps(),
    {
        &self.capabilities
    }

    /// Whether the context was lost and needs a rebuild.
    pub fn is_context_lost(&self) -> (r: bool)
        ensures
            r == self.lost(),
    {
        self.context_lost
    }

    /// Whether the context is the current one on this thread.
    pub fn is_current(&self) -> (r: bool)
        ensures
            r == self.current(),
    {
        self.current
    }

    /// Records the outcome of making the context current on this thread.
    pub fn make_current(&mut self, succeeded: bool) -> (r: Result<(), BackendError>)
        ensures
            final(self).current() == succeeded,
            final(self).lost() == old(self).lost(),
            final(self).caps() == old(self).caps(),
            final(self).device_model() == old(self).device_model(),
            r == if succeeded {
                Ok::<(), BackendError>(())
            } else {
                Err(BackendError::MakeCurrentFailed)
            },
    {
        self.current = succeeded;
        if succeeded {
            Ok(())
        } else {
            Err(BackendError::MakeCurrentFailed)
        }
    }

    /// Takes the outcome of the native buffer swap. A lost context fails at once,
    /// whatever the outcome; a swap that reports the context lost marks it so.
    pub fn swap_buffers(&mut self, outcome: SwapOutcome) -> (r: Result<(), BackendError>)
        ensures
            final(self).current() == old(self).current(),
            final(self).caps() == old(self).caps(),
            final(self).device_model() == old(self).device_model(),
            final(self).lost() == (old(self).lost() || outcome == SwapOutcome::ContextLost),
            r == if old(self).lost() || outcome == SwapOutcome::ContextLost {
                Err::<(), BackendError>(BackendError::ContextLost)
            } else if outcome == SwapOutcome::Failed {
                Err(BackendError::SwapFailed)
            } else {
                Ok(())
            },
    {
        if self.context_lost {
            return Err(BackendError::ContextLost);
        }
        match outcome {
            SwapOutcome::ContextLost => {
                self.context_lost = true;
                Err(BackendError::ContextLost)
            },
            SwapOutcome::Failed => Err(BackendError::SwapFailed),
            SwapOutcome::Done => Ok(()),
        }
    }

    /// Executes `frame` on the device, in recorded order, against a framebuffer
    /// of `dimensions` pixels. A lost context fails at once and leaves the device
    /// untouched; an invalid command stops the frame there, the commands before
    /// it having taken effect.
    pub fn dispatch(&mut self, frame: &Frame, dimensions: (u32, u32)) -> (r: Result<(), BackendError>)
        ensures
            final(self).lost() == old(self).lost(),
            final(self).current() == old(self).current(),
            final(self).caps() == old(self).caps(),
            old(self).lost() ==> r == Err::<(), BackendError>(BackendError::ContextLost)
                && final(self).device_model() == old(self).device_model(),
            !old(self).lost() ==> (r is Ok <==> run(
                fresh_frame(old(self).device_model(), dimensions),
                frame.cmds@,
                frame.bufs@.len(),
            ) is Some),
            !old(self).lost() && r is Ok ==> final(self).device_model() == run(
                fresh_frame(old(self).device_model(), dimensions),
                frame.cmds@,
                frame.bufs@.len(),
            )->Some_0,
            !old(self).lost() && r is Err ==> (r->Err_0 matches BackendError::InvalidCommand(k)
                && k < frame.cmds@.len() && run(
                fresh_frame(old(self).device_model(), dimensions),
                frame.cmds@.subrange(0, k as int),
                frame.bufs@.len(),
            ) == Some(final(self).device_model()) && run(
                fresh_frame(old(self).device_model(), dimensions),
                frame.cmds@.subrange(0, k + 1),
                frame.bufs@.len(),
            ) is None),
    {
        if self.context_lost {
            return Err(BackendError::ContextLost);
        }
        match self.device.dispatch(frame, dimensions) {
            Ok(()) => Ok(()),
            Err(k) => Err(BackendError::InvalidCommand(k)),
        }
    }
}

} // verus!
