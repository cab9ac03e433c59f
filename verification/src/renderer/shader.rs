use vstd::prelude::*;

verus! {

/// The stage of the pipeline that a shader runs in.
#[derive(Clone, Copy, Debug, PartialEq, Eq, Structural)]
pub enum ShaderStage {
    Vertex,
    Fragment,
}

/// A compiled shader of the engine, entered at `main`.
#[derive(Clone, Copy, Debug, PartialEq, Eq, Structural)]
pub struct Shader {
    pub stage: ShaderStage,
}

/// What a vertex attribute means to the vertex shader.
#[derive(Clone, Copy, Debug, PartialEq, Eq, Structural)]
pub enum VertexAttributeKind {
    Position,
    Normal,
    TexCoord,
}

/// One attribute of a vertex: so many single-precision numbers, so many
/// bytes from the start of the vertex.
#[derive(Clone, Copy, Debug, PartialEq, Eq, Structural)]
pub struct VertexAttribute {
    pub kind: VertexAttributeKind,
    pub components: u32,
    pub offset: u32,
}

/// How the vertices lie in a vertex buffer: one buffer, the vertices one
/// after the other, `stride` bytes each.
#[derive(Clone, Debug, PartialEq, Eq)]
pub struct VertexLayout {
    pub attributes: Vec<VertexAttribute>,
    pub stride: u32,
}

/// The attributes of a vertex of the engine: a position and a normal of
/// three numbers, a texture coordinate of two.
pub open spec fn spec_vertex_attributes() -> Seq<VertexAttribute> {
    seq![
        VertexAttribute { kind: VertexAttributeKind::Position, components: 3, offset: 0 },
        VertexAttribute { kind: VertexAttributeKind::Normal, components: 3, offset: 12 },
        VertexAttribute { kind: VertexAttributeKind::TexCoord, components: 2, offset: 24 },
    ]
}

/// Bytes that the first `n` of `attributes` take, at four bytes a number.
pub open spec fn spec_bytes_before(attributes: Seq<VertexAttribute>, n: int) -> int
    decreases n,
{
    if n <= 0 {
        0
    } else {
        spec_bytes_before(attributes, n - 1) + 4 * attributes[n - 1].components
    }
}

/// Contains shaders used by the engine.
#[derive(Clone, Copy, Debug, PartialEq, Eq, Structural)]
pub struct ShaderSet {
    pub vertex_shader: Shader,
    pub fragment_shader: Shader,
}

impl ShaderSet {
    /// Each shader stands in its own stage.
    pub open spec fn wf(&self) -> bool {
        &&& self.vertex_shader.stage == ShaderStage::Vertex
        &&& self.fragment_shader.stage == ShaderStage::Fragment
    }

    /// Loads shaders.
    pub fn load() -> (shader_set: ShaderSet)
        ensures
            shader_set.wf(),
    {
        ShaderSet {
            vertex_shader: Shader { stage: ShaderStage::Vertex },
            fragment_shader: Shader { stage: ShaderStage::Fragment },
        }
    }

    /// Returns vertex shader layout.
    pub fn vertex_layout() -> (layout: VertexLayout)
        ensures
            layout.attributes@ == spec_vertex_attributes(),
            layout.stride == 32,
    {
        let mut attributes: Vec<VertexAttribute> = Vec::new();
        attributes.push(
            VertexAttribute { kind: VertexAttributeKind::Position, components: 3, offset: 0 },
        );
        attributes.push(
            VertexAttribute { kind: VertexAttributeKind::Normal, components: 3, offset: 12 },
        );
        attributes.push(
            VertexAttribute { kind: VertexAttributeKind::TexCoord, components: 2, offset: 24 },
        );
        assert(attributes@ =~= spec_vertex_attributes());
        VertexLayout { attributes, stride: 32 }
    }

    /// Returns vertex shader.
    pub fn vertex_shader(&self) -> (shader: &Shader)
        ensures
            *shader == self.vertex_shader,
    {
        &self.vertex_shader
    }

    /// Returns fragment shader.
    pub fn fragment_shader(&self) -> (shader: &Shader)
        ensures
            *shader == self.fragment_shader,
    {
        &self.fragment_shader
    }
}

/// The attributes of a vertex lie one behind the other without a gap, and
/// the stride is what they take together.
pub proof fn lemma_vertex_layout_is_packed()
    ensures
        forall|i: int|
            0 <= i < spec_vertex_attributes().len()
                ==> (#[trigger] spec_vertex_attributes()[i]).offset
                == spec_bytes_before(spec_vertex_attributes(), i),
        spec_bytes_before(spec_vertex_attributes(), spec_vertex_attributes().len() as int) == 32,
{
    let a = spec_vertex_attributes();
    reveal_with_fuel(spec_bytes_before, 4);
    assert(spec_bytes_before(a, 0) == 0);
    assert(spec_bytes_before(a, 1) == 12);
    assert(spec_bytes_before(a, 2) == 24);
    assert(spec_bytes_before(a, 3) == 32);
}

} // verus!
