//! How vertices lie in a vertex buffer.

use vstd::prelude::*;
use crate::output::object::ObjectShader;

verus! {

/// The component layout of one vertex attribute.
#[derive(Clone, Copy, Debug, PartialEq, Eq, Structural)]
pub enum AttributeFormat {
    /// Two 32-bit floats.
    Float32x2,
    /// Four 32-bit floats.
    Float32x4,
}

impl AttributeFormat {
    /// The size in bytes of an attribute of this format.
    pub open spec fn bytes(self) -> int {
        match self {
            AttributeFormat::Float32x2 => 8,
            AttributeFormat::Float32x4 => 16,
        }
    }
}

/// One input of a vertex shader: where it lies in a vertex and which
/// `@location` reads it.
#[derive(Clone, Copy, Debug, PartialEq, Eq, Structural)]
pub struct Attribute {
    pub format: AttributeFormat,
    pub offset: u64,
    pub location: u32,
}

/// How a pipeline puts vertices together to shapes.
#[derive(Clone, Copy, Debug, PartialEq, Eq, Structural)]
pub enum Topology {
    PointList,
    LineList,
    TriangleList,
}

/// What the crate asks of every pipeline, whatever its shader.
#[derive(Clone, Copy, Debug, PartialEq, Eq, Structural)]
pub struct PipelineRules {
    /// How vertices are put together.
    pub topology: Topology,
    /// Whether fragments are tested against a depth buffer.
    pub depth_test: bool,
    /// The number of samples for each pixel.
    pub samples: u32,
    /// Whether colours go through the blend unit, where they replace what
    /// was there, so that the target format must be able to blend.
    pub blend: bool,
    /// Whether all four channels of the colour target are written.
    pub write_all: bool,
    /// Whether the vertex buffer is stepped once for each vertex.
    pub per_vertex: bool,
}

impl PipelineRules {
    /// The rules of the crate: triangle lists, drawn in the order of the
    /// frame without a depth test, one sample for each pixel, every channel
    /// written through the blend unit, one step of the vertex buffer for each
    /// vertex.
    pub open spec fn spec_fixed() -> PipelineRules {
        PipelineRules {
            topology: Topology::TriangleList,
            depth_test: false,
            samples: 1,
            blend: true,
            write_all: true,
            per_vertex: true,
        }
    }

    /// The rules of the crate.
    #[verifier::when_used_as_spec(spec_fixed)]
    pub fn fixed() -> (rules: PipelineRules)
        ensures
            rules == PipelineRules::spec_fixed(),
    {
        PipelineRules {
            topology: Topology::TriangleList,
            depth_test: false,
            samples: 1,
            blend: true,
            write_all: true,
            per_vertex: true,
        }
    }
}

/// A stage of a pipeline.
#[derive(Clone, Copy, Debug, PartialEq, Eq, Structural)]
pub enum Stage {
    Vertex,
    Fragment,
}

/// The sort of thing a bind group binds.
#[derive(Clone, Copy, Debug, PartialEq, Eq, Structural)]
pub enum BindingKind {
    UniformBuffer,
    StorageBuffer,
}

/// The one entry of a bind group layout: what is bound where, and which
/// stage sees it.
#[derive(Clone, Copy, Debug, PartialEq, Eq, Structural)]
pub struct LayoutEntry {
    pub binding: u32,
    pub stage: Stage,
    pub kind: BindingKind,
}

/// The width of the indices in an index buffer.
#[derive(Clone, Copy, Debug, PartialEq, Eq, Structural)]
pub enum IndexWidth {
    Bits16,
    Bits32,
}

/// Whether attributes fill a vertex of `stride` bytes exactly: the first
/// starts the vertex, each next one starts where the one before it ends, the
/// last ends the vertex, and they are read by the locations 0, 1, 2 and so
/// on.
pub open spec fn tiles(attributes: Seq<Attribute>, stride: int) -> bool {
    &&& attributes.len() > 0
    &&& attributes[0].offset == 0
    &&& forall|i: int|
        0 <= i < attributes.len() ==> (#[trigger] attributes[i]).location == i
    &&& forall|i: int|
        0 <= i < attributes.len() - 1 ==> (#[trigger] attributes[i + 1]).offset
            == attributes[i].offset + attributes[i].format.bytes()
    &&& attributes.last().offset + attributes.last().format.bytes() == stride
}

impl ObjectShader {
    /// The number of 32-bit words one vertex of this kind takes: a position
    /// of two words, and with it a colour of four for `Vertex` and a texture
    /// coordinate of two for `Texture`.
    pub open spec fn spec_vertex_words(self) -> usize {
        match self {
            ObjectShader::Uniform => 2,
            ObjectShader::Vertex => 6,
            ObjectShader::BlurBehind => 2,
            ObjectShader::Texture => 4,
        }
    }

    /// The number of 32-bit words one vertex of this kind takes.
    #[verifier::when_used_as_spec(spec_vertex_words)]
    pub fn vertex_words(self) -> (words: usize)
        ensures
            words == self.spec_vertex_words(),
    {
        match self {
            ObjectShader::Uniform => 2,
            ObjectShader::Vertex => 6,
            ObjectShader::BlurBehind => 2,
            ObjectShader::Texture => 4,
        }
    }

    /// The size in bytes of one vertex of this kind: the stride of the
    /// kind's vertex buffers.
    pub fn vertex_bytes(self) -> (bytes: u64)
        ensures
            bytes == 4 * self.spec_vertex_words(),
    {
        4 * (self.vertex_words() as u64)
    }
}

} // verus!
