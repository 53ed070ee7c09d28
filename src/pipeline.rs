use vstd::prelude::*;

use crate::error::SetupError;
use crate::swapchain::{Extent2D, SwapchainCfg};

verus! {

/// Image format of the one vertex attribute: four 16-bit floats.
pub const FORMAT_R16G16B16A16_SFLOAT: u32 = 97;

/// Bytes between two vertices: two packed 32-bit floats.
pub const VERTEX_STRIDE: u32 = 8;

/// Entry point of both shader stages.
pub const SHADER_ENTRY: &'static str = "main";

/// Vertex stage: a position transformed by world, view, projection and scale.
pub const VERT_SHADER: &'static str = "
#version 460

layout(location = 0) in vec4 position;

layout(set = 0, binding = 0) uniform Transformations {
    mat4 world;
    mat4 view;
    mat4 projection;
    mat4 scale;
} transformations;

void main() {
    vec4 projection =
        transformations.projection*
        transformations.view*
        transformations.world*
        transformations.scale*
        position;

    gl_Position = projection;
}
";

/// Fragment stage: one of six colors, chosen by primitive pairs.
pub const FRAG_SHADER: &'static str = "
#version 460

layout(location = 0) out vec4 color;

layout(set = 0, binding = 1) uniform Colordata {
    vec4 data[6];
} colordata;

void main(){
    color = colordata.data[gl_PrimitiveID/2];
}
";

#[derive(Clone, Copy, Debug, PartialEq, Eq, Structural)]
pub enum DescriptorType {
    UniformBuffer,
    StorageBuffer,
    CombinedImageSampler,
}

#[derive(Clone, Copy, Debug, PartialEq, Eq, Structural)]
pub enum ShaderStage {
    Vertex,
    Fragment,
    Geometry,
}

#[derive(Clone, Copy, Debug, PartialEq, Eq, Structural)]
pub enum Topology {
    PointList,
    LineList,
    TriangleList,
    TriangleStrip,
}

#[derive(Clone, Copy, Debug, PartialEq, Eq, Structural)]
pub enum CullMode {
    NoCulling,
    Front,
    Back,
}

/// One descriptor binding; its number is its position in the layout.
#[derive(Clone, Copy, Debug, PartialEq, Eq, Structural)]
pub struct BindingCfg {
    pub resource_type: DescriptorType,
    pub stage: ShaderStage,
    pub count: u32,
}

/// One vertex attribute.
#[derive(Clone, Copy, Debug, PartialEq, Eq, Structural)]
pub struct VertexInputCfg {
    pub location: u32,
    pub binding: u32,
    pub format: u32,
    pub offset: u32,
}

/// A shader stage to compile: which stage, its source and its entry point.
#[derive(Clone, Copy, Debug, PartialEq, Eq)]
pub struct ShaderCfg {
    pub stage: ShaderStage,
    pub name: &'static str,
    pub source: &'static str,
    pub entry: &'static str,
}

/// A render pass with one color-attachment subpass.
#[derive(Clone, Copy, Debug, PartialEq, Eq, Structural)]
pub struct RenderPassCfg {
    pub color_format: u32,
    pub subpass_count: u32,
}

/// Everything a graphics pipeline declares.
#[derive(Clone, Debug)]
pub struct PipelineSpec {
    pub vertex_stride: u32,
    pub vertex_inputs: Vec<VertexInputCfg>,
    pub geometry_shader: bool,
    pub topology: Topology,
    pub extent: Extent2D,
    pub push_constant_size: u32,
    pub render_pass: RenderPassCfg,
    pub subpass_index: u32,
    pub enable_depth_test: bool,
    pub enable_primitive_restart: bool,
    pub cull_mode: CullMode,
    /// The descriptor layout the pipeline is built against.
    pub bindings: Vec<BindingCfg>,
}

pub open spec fn uniform_vertex_binding() -> BindingCfg {
    BindingCfg { resource_type: DescriptorType::UniformBuffer, stage: ShaderStage::Vertex, count: 1 }
}

/// Binding 0 holds the model matrix, binding 1 the camera matrix: both
/// uniform buffers seen by the vertex stage only.
pub open spec fn descriptor_layout_model() -> Seq<BindingCfg> {
    seq![uniform_vertex_binding(), uniform_vertex_binding()]
}

pub open spec fn vertex_inputs_model() -> Seq<VertexInputCfg> {
    seq![VertexInputCfg { location: 0, binding: 0, format: FORMAT_R16G16B16A16_SFLOAT, offset: 0 }]
}

/// A pipeline may be bound together with a descriptor layout.
pub open spec fn bindable(layout: Seq<BindingCfg>, p: &PipelineSpec) -> bool {
    p.bindings@ == layout
}

/// The fixed pipeline for a swapchain, built against `layout`.
pub open spec fn pipeline_model(swp: SwapchainCfg, layout: Seq<BindingCfg>, p: &PipelineSpec) -> bool {
    &&& p.vertex_stride == VERTEX_STRIDE
    &&& p.vertex_inputs@ == vertex_inputs_model()
    &&& !p.geometry_shader
    &&& p.topology == Topology::TriangleList
    &&& p.extent == swp.extent
    &&& p.push_constant_size == 0
    &&& p.render_pass == render_pass_model(swp)
    &&& p.subpass_index == 0
    &&& p.enable_depth_test
    &&& !p.enable_primitive_restart
    &&& p.cull_mode == CullMode::Back
    &&& p.bindings@ == layout
}

pub open spec fn render_pass_model(swp: SwapchainCfg) -> RenderPassCfg {
    RenderPassCfg { color_format: swp.format, subpass_count: 1 }
}

/// The vertex stage to compile.
pub fn vertex_shader() -> (r: ShaderCfg)
    ensures
        r.stage == ShaderStage::Vertex,
        r.source == VERT_SHADER,
        r.entry == SHADER_ENTRY,
{
    ShaderCfg { stage: ShaderStage::Vertex, name: "VERT_DATA", source: VERT_SHADER, entry: SHADER_ENTRY }
}

/// The fragment stage to compile.
pub fn fragment_shader() -> (r: ShaderCfg)
    ensures
        r.stage == ShaderStage::Fragment,
        r.source == FRAG_SHADER,
        r.entry == SHADER_ENTRY,
{
    ShaderCfg { stage: ShaderStage::Fragment, name: "FRAG_DATA", source: FRAG_SHADER, entry: SHADER_ENTRY }
}

/// The descriptor layout: model matrix at binding 0, camera matrix at 1.
pub fn descriptor_layout() -> (r: Vec<BindingCfg>)
    ensures
        r@ == descriptor_layout_model(),
{
    let b = BindingCfg { resource_type: DescriptorType::UniformBuffer, stage: ShaderStage::Vertex, count: 1 };
    let mut r: Vec<BindingCfg> = Vec::new();
    r.push(b);
    r.push(b);
    r
}

/// The vertex attributes: one, at location 0 of binding 0.
pub fn vertex_inputs() -> (r: Vec<VertexInputCfg>)
    ensures
        r@ == vertex_inputs_model(),
{
    let mut r: Vec<VertexInputCfg> = Vec::new();
    r.push(VertexInputCfg { location: 0, binding: 0, format: FORMAT_R16G16B16A16_SFLOAT, offset: 0 });
    r
}

/// The render pass for the swapchain's format.
pub fn render_pass(swp: &SwapchainCfg) -> (r: RenderPassCfg)
    ensures
        r == render_pass_model(*swp),
{
    RenderPassCfg { color_format: swp.format, subpass_count: 1 }
}

/// The fixed graphics pipeline: triangle list, depth test on, primitive
/// restart off, back faces culled, no push constants, viewport fixed to the
/// swapchain's extent, built against `layout`.
pub fn pipeline_spec(swp: &SwapchainCfg, layout: Vec<BindingCfg>) -> (r: PipelineSpec)
    ensures
        pipeline_model(*swp, layout@, &r),
{
    PipelineSpec {
        vertex_stride: VERTEX_STRIDE,
        vertex_inputs: vertex_inputs(),
        geometry_shader: false,
        topology: Topology::TriangleList,
        extent: swp.extent,
        push_constant_size: 0,
        render_pass: render_pass(swp),
        subpass_index: 0,
        enable_depth_test: true,
        enable_primitive_restart: false,
        cull_mode: CullMode::Back,
        bindings: layout,
    }
}

/// Checks that a pipeline declares exactly the bindings of `layout`.
pub fn check_bindable(layout: &Vec<BindingCfg>, p: &PipelineSpec) -> (r: Result<(), SetupError>)
    ensures
        r is Ok <==> bindable(layout@, p),
        r matches Err(e) ==> e == SetupError::BindingMismatch,
{
    if layout.len() != p.bindings.len() {
        return Err(SetupError::BindingMismatch);
    }
    let mut i: usize = 0;
    while i < layout.len()
        invariant
            i <= layout@.len(),
            layout@.len() == p.bindings@.len(),
            forall|k: int| 0 <= k < i ==> layout@[k] == p.bindings@[k],
        decreases layout@.len() - i,
    {
        if layout[i] != p.bindings[i] {
            return Err(SetupError::BindingMismatch);
        }
        i = i + 1;
    }
    assert(p.bindings@ =~= layout@);
    Ok(())
}

/// Building the pipeline twice from the same swapchain and layout gives
/// the same vertex stride, attribute count and binding count.
pub proof fn lemma_pipeline_deterministic(
    swp: SwapchainCfg,
    layout: Seq<BindingCfg>,
    p1: &PipelineSpec,
    p2: &PipelineSpec,
)
    requires
        pipeline_model(swp, layout, p1),
        pipeline_model(swp, layout, p2),
    ensures
        p1.vertex_stride == p2.vertex_stride,
        p1.vertex_inputs@.len() == p2.vertex_inputs@.len(),
        p1.bindings@.len() == p2.bindings@.len(),
        p1.vertex_inputs@ == p2.vertex_inputs@,
        p1.bindings@ == p2.bindings@,
{
}

/// The pipeline built against the two-binding layout can be bound with that
/// layout: both declare two bindings, and the same ones.
pub proof fn lemma_layout_bindable(swp: SwapchainCfg, p: &PipelineSpec)
    requires
        pipeline_model(swp, descriptor_layout_model(), p),
    ensures
        bindable(descriptor_layout_model(), p),
        p.bindings@.len() == 2,
        p.bindings@[0] == uniform_vertex_binding(),
        p.bindings@[1] == uniform_vertex_binding(),
{
}

} // verus!
