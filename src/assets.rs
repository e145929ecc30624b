use vstd::prelude::*;

use crate::handle::Handle;

verus! {

pub type ShaderHandle = Handle;

pub type MeshHandle = Handle;

pub type TextureHandle = Handle;

/// How often the contents of a buffer are expected to change.
#[derive(Clone, Copy, Debug, PartialEq, Eq, Structural)]
pub enum BufferHint {
    Immutable,
    Stream,
    Dynamic,
}

/// The size of one index of an index buffer.
#[derive(Clone, Copy, Debug, PartialEq, Eq, Structural)]
pub enum IndexFormat {
    U16,
    U32,
}

/// How vertices are assembled into primitives.
#[derive(Clone, Copy, Debug, PartialEq, Eq, Structural)]
pub enum Primitive {
    Points,
    Lines,
    LineStrip,
    Triangles,
    TriangleStrip,
}

/// The setup of a mesh: its buffers' capacities and formats.
#[derive(Clone, Copy, Debug, PartialEq, Eq, Structural)]
pub struct MeshParams {
    pub hint: BufferHint,
    pub primitive: Primitive,
    pub index_format: IndexFormat,
    /// Bytes taken by one vertex.
    pub vertex_size: u32,
    pub num_vertices: u32,
    pub num_indices: u32,
}

/// Initial contents of a mesh's vertex and index buffers.
pub struct MeshData {
    pub vptr: Vec<u8>,
    pub iptr: Vec<u8>,
}

/// The layout of a texel.
#[derive(Clone, Copy, Debug, PartialEq, Eq, Structural)]
pub enum TextureFormat {
    U8,
    U8U8,
    U8U8U8,
    U8U8U8U8,
}

/// How a texture is sampled between texels.
#[derive(Clone, Copy, Debug, PartialEq, Eq, Structural)]
pub enum TextureFilter {
    Nearest,
    Linear,
}

/// The setup of a texture.
#[derive(Clone, Copy, Debug, PartialEq, Eq, Structural)]
pub struct TextureParams {
    pub format: TextureFormat,
    pub filter: TextureFilter,
    pub width: u32,
    pub height: u32,
}

/// Initial texels of a texture.
pub struct TextureData {
    pub bytes: Vec<u8>,
}

/// A rectangle of texels: from `min` included to `max` excluded.
#[derive(Clone, Copy, Debug, PartialEq, Eq, Structural)]
pub struct Rect {
    pub min_x: u32,
    pub min_y: u32,
    pub max_x: u32,
    pub max_y: u32,
}

/// The layout of a render texture's texels.
#[derive(Clone, Copy, Debug, PartialEq, Eq, Structural)]
pub enum RenderTextureFormat {
    Rgb8,
    Rgba8,
    Depth16,
    Depth24,
    Depth24Stencil8,
}

/// The setup of a texture that a surface can render into.
#[derive(Clone, Copy, Debug, PartialEq, Eq, Structural)]
pub struct RenderTextureParams {
    pub format: RenderTextureFormat,
    pub width: u32,
    pub height: u32,
    /// Whether shaders may sample it once rendered.
    pub sampler: bool,
}

/// Errors found in a shader's setup.
#[derive(Clone, Copy, Debug, PartialEq, Eq, Structural)]
pub enum ShaderError {
    /// No vertex attribute is declared.
    EmptyLayout,
    /// The vertex or the fragment source is empty.
    EmptySource,
    /// A uniform name is given twice.
    DuplicateUniform,
}

/// The setup of a shader: the vertex attributes it reads, as a bit set, and the
/// names of its uniform variables.
pub struct ShaderParams {
    pub attributes: u32,
    pub uniform_variables: Vec<String>,
}

/// Whether some name occurs twice in `names`.
pub open spec fn has_duplicate(names: Seq<Seq<char>>) -> bool {
    exists|i: int, j: int| 0 <= i < j < names.len() && names[i] == names[j]
}

impl ShaderParams {
    pub closed spec fn uniforms(&self) -> Seq<Seq<char>> {
        self.uniform_variables@.map_values(|s: String| s@)
    }

    /// The reason the setup is refused with these sources, if it is.
    pub open spec fn fault(&self, vs: Seq<char>, fs: Seq<char>) -> Option<ShaderError> {
        if self.attributes == 0 {
            Some(ShaderError::EmptyLayout)
        } else if vs.len() == 0 || fs.len() == 0 {
            Some(ShaderError::EmptySource)
        } else if has_duplicate(self.uniforms()) {
            Some(ShaderError::DuplicateUniform)
        } else {
            None
        }
    }

    /// Checks the setup against its sources.
    pub fn validate(&self, vs: &String, fs: &String) -> (r: Result<(), ShaderError>)
        ensures
            match self.fault(vs@, fs@) {
                Some(e) => r == Err::<(), ShaderError>(e),
                None => r is Ok,
            },
    {
        if self.attributes == 0 {
            return Err(ShaderError::EmptyLayout);
        }
        if vs.as_str().is_empty() || fs.as_str().is_empty() {
            return Err(ShaderError::EmptySource);
        }
        let n = self.uniform_variables.len();
        let mut i: usize = 0;
        while i < n
            invariant
                n == self.uniform_variables@.len(),
                self.fault(vs@, fs@) is None || self.fault(vs@, fs@) == Some(
                    ShaderError::DuplicateUniform,
                ),
                i <= n,
                forall|a: int, b: int|
                    0 <= a < b < n && a < i ==> self.uniforms()[a] != self.uniforms()[b],
            decreases n - i,
        {
            let mut j: usize = i + 1;
            while j < n
                invariant
                    n == self.uniform_variables@.len(),
                    self.fault(vs@, fs@) is None || self.fault(vs@, fs@) == Some(
                        ShaderError::DuplicateUniform,
                    ),
                    i < n,
                    i + 1 <= j <= n,
                    forall|a: int, b: int|
                        0 <= a < b < n && a < i ==> self.uniforms()[a] != self.uniforms()[b],
                    forall|b: int| i < b < j ==> self.uniforms()[i as int] != self.uniforms()[b],
                decreases n - j,
            {
                if self.uniform_variables[i] == self.uniform_variables[j] {
                    assert(self.uniforms()[i as int] == self.uniforms()[j as int]);
                    assert(has_duplicate(self.uniforms())) by {
                        let (a, b) = (i as int, j as int);
                        assert(0 <= a < b < self.uniforms().len() && self.uniforms()[a]
                            == self.uniforms()[b]);
                    }
                    return Err(ShaderError::DuplicateUniform);
                }
                j = j + 1;
            }
            i = i + 1;
        }
        Ok(())
    }

    /// A copy with the same attributes and uniform names.
    pub fn duplicate(&self) -> (r: ShaderParams)
        ensures
            r.attributes == self.attributes,
            r.uniform_variables@ == self.uniform_variables@,
    {
        let mut names: Vec<String> = Vec::new();
        let mut i: usize = 0;
        while i < self.uniform_variables.len()
            invariant
                i <= self.uniform_variables@.len(),
                names@ == self.uniform_variables@.subrange(0, i as int),
            decreases self.uniform_variables@.len() - i,
        {
            names.push(self.uniform_variables[i].clone());
            i = i + 1;
            assert(names@ =~= self.uniform_variables@.subrange(0, i as int));
        }
        assert(names@ =~= self.uniform_variables@);
        ShaderParams { attributes: self.attributes, uniform_variables: names }
    }
}

} // verus!
