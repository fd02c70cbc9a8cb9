use vstd::prelude::*;
use vulkanalia::bytecode::{Bytecode, BytecodeError};
use crate::swapchain::Extent2D;

verus! {

#[verifier::external_type_specification]
#[verifier::external_body]
pub struct ExBytecode(Bytecode);

/// Why a shader's bytecode was refused.
#[derive(Clone, Copy, Debug, PartialEq, Eq, Structural)]
pub enum ShaderError {
    /// The buffer is empty or its length is not a multiple of four bytes.
    Length(usize),
    /// No aligned buffer could be allocated for the copy.
    Alloc,
}

/// SPIR-V is a stream of 32-bit words: an acceptable buffer is non-empty and a
/// whole number of words long.
pub open spec fn valid_code_length(len: nat) -> bool {
    len > 0 && len % 4 == 0
}

/// Relies on vulkanalia's `Bytecode::new`: it returns `Length` with the
/// buffer's length when the buffer is empty or not a multiple of four bytes
/// long; otherwise it copies the buffer into a 4-byte aligned one and fails
/// only with `Alloc`, when that allocation fails.
#[verifier::external_body]
fn new_bytecode(code: &[u8]) -> (r: Result<Bytecode, ShaderError>)
    ensures
        (r matches Err(ShaderError::Length(n))) == !valid_code_length(code@.len()),
        r matches Err(ShaderError::Length(n)) ==> n == code@.len(),
{
    match Bytecode::new(code) {
        Ok(b) => Ok(b),
        Err(BytecodeError::Length(n)) => Err(ShaderError::Length(n)),
        Err(BytecodeError::Alloc) => Err(ShaderError::Alloc),
    }
}

/// The two compiled shader stages of the pipeline, aligned for module
/// creation. The modules made from them live only while the pipeline is
/// built.
pub struct ShaderStages {
    pub vertex: Bytecode,
    pub fragment: Bytecode,
}

/// Raw value of `VK_SHADER_STAGE_VERTEX_BIT`.
pub const STAGE_VERTEX: u32 = 0x1;

/// Raw value of `VK_SHADER_STAGE_FRAGMENT_BIT`.
pub const STAGE_FRAGMENT: u32 = 0x10;

/// Raw value of `VK_PRIMITIVE_TOPOLOGY_TRIANGLE_LIST`.
pub const TOPOLOGY_TRIANGLE_LIST: i32 = 3;

/// Raw value of `VK_POLYGON_MODE_FILL`.
pub const POLYGON_MODE_FILL: i32 = 0;

/// Raw value of `VK_CULL_MODE_BACK_BIT`.
pub const CULL_MODE_BACK: u32 = 0x2;

/// Raw value of `VK_FRONT_FACE_CLOCKWISE`.
pub const FRONT_FACE_CLOCKWISE: i32 = 1;

/// Raw value of `VK_SAMPLE_COUNT_1_BIT`.
pub const SAMPLE_COUNT_1: u32 = 0x1;

/// Raw value of `VK_BLEND_FACTOR_ZERO`.
pub const BLEND_FACTOR_ZERO: i32 = 0;

/// Raw value of `VK_BLEND_FACTOR_ONE`.
pub const BLEND_FACTOR_ONE: i32 = 1;

/// Raw value of `VK_BLEND_FACTOR_SRC_ALPHA`.
pub const BLEND_FACTOR_SRC_ALPHA: i32 = 6;

/// Raw value of `VK_BLEND_FACTOR_ONE_MINUS_SRC_ALPHA`.
pub const BLEND_FACTOR_ONE_MINUS_SRC_ALPHA: i32 = 7;

/// Raw value of `VK_BLEND_OP_ADD`.
pub const BLEND_OP_ADD: i32 = 0;

/// Raw value of R, G, B and A in `VkColorComponentFlags`.
pub const COLOR_COMPONENTS_RGBA: u32 = 0xF;

/// Raw value of `VK_LOGIC_OP_COPY`, unused while the logic op is off.
pub const LOGIC_OP_COPY: i32 = 3;

/// Raw value of `VK_ATTACHMENT_LOAD_OP_CLEAR`.
pub const LOAD_OP_CLEAR: i32 = 1;

/// Raw value of `VK_ATTACHMENT_LOAD_OP_DONT_CARE`.
pub const LOAD_OP_DONT_CARE: i32 = 2;

/// Raw value of `VK_ATTACHMENT_STORE_OP_STORE`.
pub const STORE_OP_STORE: i32 = 0;

/// Raw value of `VK_ATTACHMENT_STORE_OP_DONT_CARE`.
pub const STORE_OP_DONT_CARE: i32 = 1;

/// Raw value of `VK_IMAGE_LAYOUT_UNDEFINED`.
pub const LAYOUT_UNDEFINED: i32 = 0;

/// Raw value of `VK_IMAGE_LAYOUT_COLOR_ATTACHMENT_OPTIMAL`.
pub const LAYOUT_COLOR_ATTACHMENT_OPTIMAL: i32 = 2;

/// Raw value of `VK_IMAGE_LAYOUT_PRESENT_SRC_KHR`.
pub const LAYOUT_PRESENT_SRC: i32 = 1000001002;

/// Raw value of `VK_PIPELINE_BIND_POINT_GRAPHICS`.
pub const BIND_POINT_GRAPHICS: i32 = 0;

/// One programmable stage: its stage bit; the entry point is `main`.
#[derive(Clone, Copy, Debug, PartialEq, Eq, Structural)]
pub struct ShaderStage {
    pub stage: u32,
}

/// The render pass: one color attachment, used by one graphics subpass.
#[derive(Clone, Copy, Debug, PartialEq, Eq, Structural)]
pub struct RenderPassState {
    pub attachment_count: u32,
    pub format: i32,
    pub samples: u32,
    pub load_op: i32,
    pub store_op: i32,
    pub stencil_load_op: i32,
    pub stencil_store_op: i32,
    pub initial_layout: i32,
    pub final_layout: i32,
    pub subpass_count: u32,
    pub subpass_bind_point: i32,
    /// Index of the attachment the subpass writes, and its layout meanwhile.
    pub subpass_attachment: u32,
    pub subpass_layout: i32,
}

/// Blending of the one color attachment.
#[derive(Clone, Copy, Debug, PartialEq, Eq, Structural)]
pub struct ColorBlendState {
    pub blend_enable: bool,
    pub src_color_blend_factor: i32,
    pub dst_color_blend_factor: i32,
    pub color_blend_op: i32,
    pub src_alpha_blend_factor: i32,
    pub dst_alpha_blend_factor: i32,
    pub alpha_blend_op: i32,
    pub color_write_mask: u32,
    pub logic_op_enable: bool,
    pub logic_op: i32,
}

/// The graphics pipeline and its render pass, as raw Vulkan values. Viewport
/// and scissor cover `extent` exactly, from the origin, depth 0 to 1.
#[derive(Clone, Copy, Debug, PartialEq, Eq, Structural)]
pub struct VulkanPipeline {
    pub render_pass: RenderPassState,
    pub vertex_stage: ShaderStage,
    pub fragment_stage: ShaderStage,
    pub topology: i32,
    pub primitive_restart: bool,
    pub extent: Extent2D,
    pub depth_clamp: bool,
    pub rasterizer_discard: bool,
    pub polygon_mode: i32,
    pub cull_mode: u32,
    pub front_face: i32,
    pub depth_bias: bool,
    pub samples: u32,
    pub sample_shading: bool,
    pub blend: ColorBlendState,
    pub subpass: u32,
}

/// One color attachment in `format`, single-sampled, cleared at the start of
/// the pass, stored at its end, going from undefined to presentable layout.
pub open spec fn render_pass_for(format: i32) -> RenderPassState {
    RenderPassState {
        attachment_count: 1,
        format,
        samples: SAMPLE_COUNT_1,
        load_op: LOAD_OP_CLEAR,
        store_op: STORE_OP_STORE,
        stencil_load_op: LOAD_OP_DONT_CARE,
        stencil_store_op: STORE_OP_DONT_CARE,
        initial_layout: LAYOUT_UNDEFINED,
        final_layout: LAYOUT_PRESENT_SRC,
        subpass_count: 1,
        subpass_bind_point: BIND_POINT_GRAPHICS,
        subpass_attachment: 0,
        subpass_layout: LAYOUT_COLOR_ATTACHMENT_OPTIMAL,
    }
}

/// Source-over compositing: color takes source alpha over one minus source
/// alpha, destination alpha is left as it is; all four channels written.
pub open spec fn source_over_blend() -> ColorBlendState {
    ColorBlendState {
        blend_enable: true,
        src_color_blend_factor: BLEND_FACTOR_SRC_ALPHA,
        dst_color_blend_factor: BLEND_FACTOR_ONE_MINUS_SRC_ALPHA,
        color_blend_op: BLEND_OP_ADD,
        src_alpha_blend_factor: BLEND_FACTOR_ONE,
        dst_alpha_blend_factor: BLEND_FACTOR_ZERO,
        alpha_blend_op: BLEND_OP_ADD,
        color_write_mask: COLOR_COMPONENTS_RGBA,
        logic_op_enable: false,
        logic_op: LOGIC_OP_COPY,
    }
}

impl VulkanPipeline {
    /// The render pass and pipeline for a swapchain of this format and extent.
    pub fn create(color_format: i32, extent: Extent2D) -> (r: VulkanPipeline)
        ensures
            r.render_pass == render_pass_for(color_format),
            r.vertex_stage == (ShaderStage { stage: STAGE_VERTEX }),
            r.fragment_stage == (ShaderStage { stage: STAGE_FRAGMENT }),
            r.topology == TOPOLOGY_TRIANGLE_LIST,
            !r.primitive_restart,
            r.extent == extent,
            !r.depth_clamp,
            !r.rasterizer_discard,
            r.polygon_mode == POLYGON_MODE_FILL,
            r.cull_mode == CULL_MODE_BACK,
            r.front_face == FRONT_FACE_CLOCKWISE,
            !r.depth_bias,
            r.samples == SAMPLE_COUNT_1,
            !r.sample_shading,
            r.blend == source_over_blend(),
            r.subpass == 0,
    {
        VulkanPipeline {
            render_pass: RenderPassState {
                attachment_count: 1,
                format: color_format,
                samples: SAMPLE_COUNT_1,
                load_op: LOAD_OP_CLEAR,
                store_op: STORE_OP_STORE,
                stencil_load_op: LOAD_OP_DONT_CARE,
                stencil_store_op: STORE_OP_DONT_CARE,
                initial_layout: LAYOUT_UNDEFINED,
                final_layout: LAYOUT_PRESENT_SRC,
                subpass_count: 1,
                subpass_bind_point: BIND_POINT_GRAPHICS,
                subpass_attachment: 0,
                subpass_layout: LAYOUT_COLOR_ATTACHMENT_OPTIMAL,
            },
            vertex_stage: ShaderStage { stage: STAGE_VERTEX },
            fragment_stage: ShaderStage { stage: STAGE_FRAGMENT },
            topology: TOPOLOGY_TRIANGLE_LIST,
            primitive_restart: false,
            extent,
            depth_clamp: false,
            rasterizer_discard: false,
            polygon_mode: POLYGON_MODE_FILL,
            cull_mode: CULL_MODE_BACK,
            front_face: FRONT_FACE_CLOCKWISE,
            depth_bias: false,
            samples: SAMPLE_COUNT_1,
            sample_shading: false,
            blend: ColorBlendState {
                blend_enable: true,
                src_color_blend_factor: BLEND_FACTOR_SRC_ALPHA,
                dst_color_blend_factor: BLEND_FACTOR_ONE_MINUS_SRC_ALPHA,
                color_blend_op: BLEND_OP_ADD,
                src_alpha_blend_factor: BLEND_FACTOR_ONE,
                dst_alpha_blend_factor: BLEND_FACTOR_ZERO,
                alpha_blend_op: BLEND_OP_ADD,
                color_write_mask: COLOR_COMPONENTS_RGBA,
                logic_op_enable: false,
                logic_op: LOGIC_OP_COPY,
            },
            subpass: 0,
        }
    }

    /// Checks one stage's bytecode and copies it into an aligned buffer.
    pub fn create_shader_module(code: &[u8]) -> (r: Result<Bytecode, ShaderError>)
        ensures
            (r matches Err(ShaderError::Length(n))) == !valid_code_length(code@.len()),
            r matches Err(ShaderError::Length(n)) ==> n == code@.len(),
    {
        new_bytecode(code)
    }

    /// Checks the vertex stage, then the fragment stage.
    pub fn load_shaders(vertex: &[u8], fragment: &[u8]) -> (r: Result<ShaderStages, ShaderError>)
        ensures
            !valid_code_length(vertex@.len()) ==> r == Err::<ShaderStages, ShaderError>(
                ShaderError::Length(vertex@.len() as usize),
            ),
            valid_code_length(vertex@.len()) && !valid_code_length(fragment@.len()) ==> (r
                == Err::<ShaderStages, ShaderError>(ShaderError::Length(fragment@.len() as usize))
                || r == Err::<ShaderStages, ShaderError>(ShaderError::Alloc)),
            r is Ok ==> valid_code_length(vertex@.len()) && valid_code_length(fragment@.len()),
    {
        let vertex = VulkanPipeline::create_shader_module(vertex)?;
        let fragment = VulkanPipeline::create_shader_module(fragment)?;
        Ok(ShaderStages { vertex, fragment })
    }
}

} // verus!
