use vstd::prelude::*;
use crate::scalar::{ZERO_BITS, ONE_BITS};
use crate::settings::PhysicalSize;
use crate::renderer::shader::{ShaderSet, VertexLayout, spec_vertex_attributes};
use crate::renderer::swapchain::{Format, SwapchainImage};

verus! {

/// What happens to an attachment when a render pass begins.
#[derive(Clone, Copy, Debug, PartialEq, Eq, Structural)]
pub enum LoadOp {
    Load,
    Clear,
    DontCare,
}

/// What happens to an attachment when a render pass ends.
#[derive(Clone, Copy, Debug, PartialEq, Eq, Structural)]
pub enum StoreOp {
    Store,
    DontCare,
}

/// An image that a render pass draws to or reads from.
#[derive(Clone, Copy, Debug, PartialEq, Eq, Structural)]
pub struct AttachmentDescription {
    pub format: Format,
    pub samples: u32,
    pub load: LoadOp,
    pub store: StoreOp,
}

/// A render pass of one subpass, which draws to `color` and, where there
/// is one, tests against `depth_stencil`.
#[derive(Clone, Copy, Debug, PartialEq, Eq, Structural)]
pub struct RenderPass {
    pub color: AttachmentDescription,
    pub depth_stencil: Option<AttachmentDescription>,
}

/// How vertices are put together to shapes.
#[derive(Clone, Copy, Debug, PartialEq, Eq, Structural)]
pub enum PrimitiveTopology {
    PointList,
    LineList,
    TriangleList,
    TriangleStrip,
}

/// The part of the image that is drawn to. The origin and the depth range
/// are the bit patterns of single-precision numbers.
#[derive(Clone, Copy, Debug, PartialEq, Eq, Structural)]
pub struct Viewport {
    pub origin_x: u32,
    pub origin_y: u32,
    pub dimensions: PhysicalSize,
    pub depth_near: u32,
    pub depth_far: u32,
}

/// A graphics pipeline: the shaders, the layout of the vertices and the
/// fixed state that draw calls run with.
#[derive(Clone, Debug, PartialEq, Eq)]
pub struct Pipeline {
    pub vertex_layout: VertexLayout,
    pub shader_set: ShaderSet,
    pub topology: PrimitiveTopology,
    pub viewport: Viewport,
    pub render_pass: RenderPass,
    pub subpass: u32,
}

/// An image together with the render pass that draws to it.
#[derive(Clone, Copy, Debug, PartialEq, Eq, Structural)]
pub struct Framebuffer {
    pub render_pass: RenderPass,
    pub image: SwapchainImage,
}

/// The render pass of the engine for images of the format `format`: one
/// color attachment of one sample, cleared at the start and stored at the
/// end; no depth or stencil attachment.
pub open spec fn spec_renderpass(format: Format) -> RenderPass {
    RenderPass {
        color: AttachmentDescription {
            format,
            samples: 1,
            load: LoadOp::Clear,
            store: StoreOp::Store,
        },
        depth_stencil: None,
    }
}

/// Creates render pass, which is a collection of attachments, subpasses,
/// and dependencies between the subpasses.
pub fn create_renderpass(format: Format) -> (render_pass: RenderPass)
    ensures
        render_pass == spec_renderpass(format),
{
    RenderPass {
        color: AttachmentDescription {
            format,
            samples: 1,
            load: LoadOp::Clear,
            store: StoreOp::Store,
        },
        depth_stencil: None,
    }
}

/// The viewport that covers an image of the given size, over the whole
/// range of depths from 0.0 to 1.0.
pub open spec fn spec_viewport(dimensions: PhysicalSize) -> Viewport {
    Viewport {
        origin_x: ZERO_BITS,
        origin_y: ZERO_BITS,
        dimensions,
        depth_near: ZERO_BITS,
        depth_far: ONE_BITS,
    }
}

/// Whether `pipeline` is the pipeline of the engine for these shaders,
/// images of this size and this render pass: the vertex layout of the
/// engine, lists of triangles, one viewport over the whole image, the
/// first subpass of the render pass.
pub open spec fn spec_is_pipeline(
    pipeline: Pipeline,
    shader_set: ShaderSet,
    dimensions: PhysicalSize,
    render_pass: RenderPass,
) -> bool {
    &&& pipeline.vertex_layout.attributes@ == spec_vertex_attributes()
    &&& pipeline.vertex_layout.stride == 32
    &&& pipeline.shader_set == shader_set
    &&& pipeline.topology == PrimitiveTopology::TriangleList
    &&& pipeline.viewport == spec_viewport(dimensions)
    &&& pipeline.render_pass == render_pass
    &&& pipeline.subpass == 0
}

/// Creates a pipeline, which describe a graphical or computer operation.
pub fn create_pipeline(
    shader_set: &ShaderSet,
    dimensions: PhysicalSize,
    render_pass: &RenderPass,
) -> (pipeline: Pipeline)
    ensures
        spec_is_pipeline(pipeline, *shader_set, dimensions, *render_pass),
{
    Pipeline {
        vertex_layout: ShaderSet::vertex_layout(),
        shader_set: *shader_set,
        topology: PrimitiveTopology::TriangleList,
        viewport: Viewport {
            origin_x: ZERO_BITS,
            origin_y: ZERO_BITS,
            dimensions,
            depth_near: ZERO_BITS,
            depth_far: ONE_BITS,
        },
        render_pass: *render_pass,
        subpass: 0,
    }
}

/// The framebuffers for `images`: one for each image, in the images'
/// order, all of them for `render_pass`.
pub open spec fn spec_framebuffers(
    images: Seq<SwapchainImage>,
    render_pass: RenderPass,
) -> Seq<Framebuffer> {
    Seq::new(images.len(), |i: int| Framebuffer { render_pass, image: images[i] })
}

/// Creates framebuffers, which contain list of images that are attached.
pub fn create_framebuffers(images: &Vec<SwapchainImage>, render_pass: &RenderPass) -> (framebuffers:
    Vec<Framebuffer>)
    ensures
        framebuffers@ == spec_framebuffers(images@, *render_pass),
{
    let mut framebuffers: Vec<Framebuffer> = Vec::with_capacity(images.len());
    let mut i: usize = 0;
    while i < images.len()
        invariant
            0 <= i <= images.len(),
            framebuffers@.len() == i,
            forall|j: int|
                0 <= j < i ==> framebuffers@[j] == (Framebuffer {
                    render_pass: *render_pass,
                    image: images@[j],
                }),
        decreases images.len() - i,
    {
        framebuffers.push(Framebuffer { render_pass: *render_pass, image: images[i] });
        i += 1;
    }
    assert(framebuffers@ =~= spec_framebuffers(images@, *render_pass));
    framebuffers
}

} // verus!
