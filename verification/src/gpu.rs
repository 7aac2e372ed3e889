//! The GPU layer's types as the library uses them, and the facts about them
//! that the library relies on without proof.
//!
//! A type that is declared with its body is read as the GPU layer defines
//! it: its fields and variants are those of `wgpu`. A type that is declared
//! without is a handle or a set of flags: its values are carried and handed
//! back, never looked into.
use vstd::prelude::*;

verus! {

#[verifier::external_type_specification]
pub struct ExAstcBlock(wgpu::AstcBlock);

#[verifier::external_type_specification]
pub struct ExAstcChannel(wgpu::AstcChannel);

#[verifier::external_type_specification]
pub struct ExTextureFormat(wgpu::TextureFormat);

#[verifier::external_type_specification]
pub struct ExPresentMode(wgpu::PresentMode);

#[verifier::external_type_specification]
pub struct ExCompositeAlphaMode(wgpu::CompositeAlphaMode);

#[verifier::external_type_specification]
#[verifier::external_body]
pub struct ExTextureUsages(wgpu::TextureUsages);

#[verifier::external_type_specification]
pub struct ExSurfaceCapabilities(wgpu::SurfaceCapabilities);

#[verifier::external_type_specification]
#[verifier::reject_recursive_types(V)]
pub struct ExSurfaceConfiguration<V>(wgpu_types::SurfaceConfiguration<V>);

#[verifier::external_type_specification]
#[verifier::external_body]
pub struct ExSurface<'a>(wgpu::Surface<'a>);

#[verifier::external_type_specification]
pub struct ExSurfaceError(wgpu::SurfaceError);

#[verifier::external_type_specification]
#[verifier::external_body]
pub struct ExDevice(wgpu::Device);

#[verifier::external_type_specification]
#[verifier::external_body]
pub struct ExTexture(wgpu::Texture);

#[verifier::external_type_specification]
#[verifier::external_body]
pub struct ExShaderModule(wgpu::ShaderModule);

#[verifier::external_type_specification]
#[verifier::external_body]
pub struct ExPipelineLayout(wgpu::PipelineLayout);

#[verifier::external_type_specification]
#[verifier::external_body]
pub struct ExPipelineCache(wgpu::PipelineCache);

#[verifier::external_type_specification]
#[verifier::external_body]
pub struct ExShaderStages(wgpu::ShaderStages);

#[verifier::external_type_specification]
#[verifier::external_body]
pub struct ExBindingType(wgpu::BindingType);

#[verifier::external_type_specification]
#[verifier::external_body]
pub struct ExBindingResource<'a>(wgpu::BindingResource<'a>);

#[verifier::external_type_specification]
pub struct ExBindGroupEntry<'a>(wgpu::BindGroupEntry<'a>);

#[verifier::external_type_specification]
#[verifier::external_body]
pub struct ExVertexBufferLayout<'a>(wgpu::VertexBufferLayout<'a>);

#[verifier::external_type_specification]
#[verifier::external_body]
pub struct ExPipelineCompilationOptions<'a>(wgpu::PipelineCompilationOptions<'a>);

#[verifier::external_type_specification]
pub struct ExVertexState<'a>(wgpu::VertexState<'a>);

#[verifier::external_type_specification]
pub struct ExFragmentState<'a>(wgpu::FragmentState<'a>);

#[verifier::external_type_specification]
pub struct ExComputePipelineDescriptor<'a>(wgpu::ComputePipelineDescriptor<'a>);

#[verifier::external_type_specification]
pub struct ExPrimitiveTopology(wgpu::PrimitiveTopology);

#[verifier::external_type_specification]
pub struct ExIndexFormat(wgpu::IndexFormat);

#[verifier::external_type_specification]
pub struct ExFrontFace(wgpu::FrontFace);

#[verifier::external_type_specification]
pub struct ExFace(wgpu::Face);

#[verifier::external_type_specification]
pub struct ExPolygonMode(wgpu::PolygonMode);

#[verifier::external_type_specification]
pub struct ExPrimitiveState(wgpu::PrimitiveState);

#[verifier::external_type_specification]
pub struct ExMultisampleState(wgpu::MultisampleState);

#[verifier::external_type_specification]
pub struct ExCompareFunction(wgpu::CompareFunction);

#[verifier::external_type_specification]
pub struct ExStencilOperation(wgpu::StencilOperation);

#[verifier::external_type_specification]
pub struct ExStencilFaceState(wgpu::StencilFaceState);

#[verifier::external_type_specification]
pub struct ExStencilState(wgpu::StencilState);

#[verifier::external_type_specification]
#[verifier::external_body]
pub struct ExDepthBiasState(wgpu::DepthBiasState);

#[verifier::external_type_specification]
pub struct ExDepthStencilState(wgpu::DepthStencilState);

#[verifier::external_type_specification]
#[verifier::external_body]
pub struct ExBlendState(wgpu::BlendState);

#[verifier::external_type_specification]
#[verifier::external_body]
pub struct ExColorWrites(wgpu::ColorWrites);

#[verifier::external_type_specification]
pub struct ExColorTargetState(wgpu::ColorTargetState);

/// The usages that a set of texture usages holds, each by its bit, as
/// `wgpu::TextureUsages::bits` shows them.
pub uninterp spec fn usage_flags(usages: wgpu::TextureUsages) -> Set<u32>;

/// The bit that marks a texture as an output attachment of a render pass.
pub const RENDER_ATTACHMENT: u32 = 16;

/// The colour channels that a write mask holds, each by its bit, as
/// `wgpu::ColorWrites::bits` shows them.
pub uninterp spec fn write_channels(mask: wgpu::ColorWrites) -> Set<u32>;

/// The bit of the red channel in a write mask.
pub const RED: u32 = 1;

/// The bit of the green channel in a write mask.
pub const GREEN: u32 = 2;

/// The bit of the blue channel in a write mask.
pub const BLUE: u32 = 4;

/// The bit of the alpha channel in a write mask.
pub const ALPHA: u32 = 8;

/// Red, green, blue and alpha.
pub open spec fn all_channels() -> Set<u32> {
    set![RED, GREEN, BLUE, ALPHA]
}

/// Whether a depth bias shifts any depth value, as
/// `wgpu::DepthBiasState::is_enabled` tells of it.
pub uninterp spec fn bias_enabled(bias: wgpu::DepthBiasState) -> bool;

/// `wgpu::TextureUsages::RENDER_ATTACHMENT`: the set of usages that holds
/// the render-attachment bit and no other.
#[verifier::external_body]
pub(crate) fn render_attachment_usage() -> (usage: wgpu::TextureUsages)
    ensures
        usage_flags(usage) == set![RENDER_ATTACHMENT],
{
    wgpu::TextureUsages::RENDER_ATTACHMENT
}

/// The number that the length of a row must be a multiple of when a texture
/// is copied to a buffer.
pub const COPY_ROW_ALIGNMENT: u32 = 256;

/// `wgpu::COPY_BYTES_PER_ROW_ALIGNMENT`, which is 256.
#[verifier::external_body]
pub(crate) fn copy_row_alignment() -> (align: u32)
    ensures
        align == COPY_ROW_ALIGNMENT,
{
    wgpu::COPY_BYTES_PER_ROW_ALIGNMENT
}

} // verus!
