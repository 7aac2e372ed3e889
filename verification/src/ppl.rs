//! Builders for render and compute pipelines. A builder starts from
//! defaults that suit a simple pass, takes what differs, and describes the
//! pipeline. Whoever owns the device asks it for the pipeline so described.
use vstd::prelude::*;
use crate::ctx::DrawingContext;
use crate::gpu::{all_channels, bias_enabled, write_channels};

verus! {

/// The label of the render pipelines built here.
pub const RENDER_PIPELINE_LABEL: &'static str = "[wgsim] render pipeline";

/// The label of the compute pipelines built here.
pub const COMPUTE_PIPELINE_LABEL: &'static str = "[wgsim] compute pipeline";

/// The entry point of a vertex stage unless the caller names another.
pub const DEFAULT_VERTEX_ENTRY: &'static str = "vs_main";

/// The entry point of a fragment stage unless the caller names another.
pub const DEFAULT_FRAGMENT_ENTRY: &'static str = "fs_main";

/// The entry point of a compute stage unless the caller names another.
pub const DEFAULT_COMPUTE_ENTRY: &'static str = "cs_main";

/// How primitives are assembled and rasterised by default: a list of
/// triangles, counter-clockwise front faces, no culling, filled polygons.
pub open spec fn default_primitive() -> wgpu::PrimitiveState {
    wgpu::PrimitiveState {
        topology: wgpu::PrimitiveTopology::TriangleList,
        strip_index_format: None,
        front_face: wgpu::FrontFace::Ccw,
        cull_mode: None,
        unclipped_depth: false,
        polygon_mode: wgpu::PolygonMode::Fill,
        conservative: false,
    }
}

/// The stencil test that tests nothing: both faces always pass and keep the
/// stencil value, and neither mask has a bit set.
pub open spec fn default_stencil() -> wgpu::StencilState {
    let ignore = wgpu::StencilFaceState {
        compare: wgpu::CompareFunction::Always,
        fail_op: wgpu::StencilOperation::Keep,
        depth_fail_op: wgpu::StencilOperation::Keep,
        pass_op: wgpu::StencilOperation::Keep,
    };
    wgpu::StencilState { front: ignore, back: ignore, read_mask: 0, write_mask: 0 }
}

/// Multisampling with `count` samples to the pixel, all of them written,
/// and no alpha-to-coverage.
pub open spec fn multisample(count: u32) -> wgpu::MultisampleState {
    wgpu::MultisampleState { count, mask: u64::MAX, alpha_to_coverage_enabled: false }
}

/// Whether `state` is the depth test that is switched on by default: a
/// depth buffer of at least 24 bits that is written, a fragment passing
/// when it is no farther than what is there, no stencil test and no depth
/// bias.
pub open spec fn is_default_depth_stencil(state: wgpu::DepthStencilState) -> bool {
    &&& state.format == wgpu::TextureFormat::Depth24Plus
    &&& state.depth_write_enabled
    &&& state.depth_compare == wgpu::CompareFunction::LessEqual
    &&& state.stencil == default_stencil()
    &&& !bias_enabled(state.bias)
}

/// `wgpu::PrimitiveState::default`, which the type derives: each field at
/// its own default.
pub assume_specification[ <wgpu::PrimitiveState as Default>::default ]() -> (state:
    wgpu::PrimitiveState)
    ensures
        state == default_primitive(),
;

/// `wgpu::StencilState::default`, which the type derives: both faces at
/// `StencilFaceState::IGNORE`, both masks zero.
pub assume_specification[ <wgpu::StencilState as Default>::default ]() -> (state:
    wgpu::StencilState)
    ensures
        state == default_stencil(),
;

/// `wgpu::DepthBiasState::default`, which the type derives: the constant
/// and the slope are zero, so the bias is not enabled.
pub assume_specification[ <wgpu::DepthBiasState as Default>::default ]() -> (state:
    wgpu::DepthBiasState)
    ensures
        !bias_enabled(state),
;

/// `wgpu::MultisampleState::default`: one sample, every bit of the mask
/// set, no alpha-to-coverage.
pub assume_specification[ <wgpu::MultisampleState as Default>::default ]() -> (state:
    wgpu::MultisampleState)
    ensures
        state == multisample(1),
;

/// `wgpu::PipelineCompilationOptions::default`. The options are opaque
/// here, so nothing is stated of them.
pub assume_specification<'a>[ <wgpu::PipelineCompilationOptions<'a> as Default>::default ]() -> (options:
    wgpu::PipelineCompilationOptions<'a>)
;

/// `wgpu::ColorTargetState::from`: a colour target of the given format
/// without blending, all four channels written.
pub assume_specification[ <wgpu::ColorTargetState as From<wgpu::TextureFormat>>::from ](
    format: wgpu::TextureFormat,
) -> (target: wgpu::ColorTargetState)
    ensures
        target.format == format,
        target.blend is None,
        write_channels(target.write_mask) == all_channels(),
;

/// `wgpu::DepthStencilState::clone`, which the type derives: a copy with
/// the same fields.
pub assume_specification[ <wgpu::DepthStencilState as Clone>::clone ](
    state: &wgpu::DepthStencilState,
) -> (copy: wgpu::DepthStencilState)
    ensures
        copy == *state,
;

/// What a render pipeline is made from: the stages, the layout and the
/// fixed-function state.
pub struct RenderPipelineDescription<'a> {
    pub label: &'a str,
    pub layout: Option<&'a wgpu::PipelineLayout>,
    pub vertex: wgpu::VertexState<'a>,
    pub primitive: wgpu::PrimitiveState,
    pub depth_stencil: Option<wgpu::DepthStencilState>,
    pub multisample: wgpu::MultisampleState,
    pub fragment: Option<wgpu::FragmentState<'a>>,
    /// The views to render to at once, if more than one.
    pub multiview: Option<u32>,
    pub cache: Option<&'a wgpu::PipelineCache>,
}

impl<'a> RenderPipelineDescription<'a> {
    /// The colour targets that the pipeline writes: those of its fragment
    /// stage, none without one.
    pub open spec fn color_targets(self) -> Seq<Option<wgpu::ColorTargetState>> {
        match self.fragment {
            Some(fragment) => fragment.targets@,
            None => Seq::empty(),
        }
    }
}

/// Collects what a render pipeline is made from.
pub struct RenderPipelineBuilder<'a> {
    pub ctx: &'a DrawingContext,
    pub pipeline_layout: Option<&'a wgpu::PipelineLayout>,
    pub depth_stencil: Option<wgpu::DepthStencilState>,
    pub vs_shader: Option<&'a wgpu::ShaderModule>,
    pub vs_entry: &'a str,
    pub vertex_buffer_layout: &'a [wgpu::VertexBufferLayout<'a>],
    pub fs_shader: Option<&'a wgpu::ShaderModule>,
    pub fs_entry: &'a str,
    pub targets: Vec<Option<wgpu::ColorTargetState>>,
    pub primitive: wgpu::PrimitiveState,
}

impl<'a> RenderPipelineBuilder<'a> {
    /// Whether `desc` is what this builder describes: its own stages, layout
    /// and state, the sample count of its context, a fragment stage exactly
    /// when a fragment shader is set, one view and no cache.
    pub open spec fn describes(self, desc: RenderPipelineDescription<'_>) -> bool {
        &&& desc.label@ == RENDER_PIPELINE_LABEL@
        &&& desc.layout == self.pipeline_layout
        &&& self.vs_shader is Some
        &&& desc.vertex.module == self.vs_shader->Some_0
        &&& desc.vertex.entry_point == Some(self.vs_entry)
        &&& desc.vertex.buffers@ == self.vertex_buffer_layout@
        &&& desc.primitive == self.primitive
        &&& desc.depth_stencil == self.depth_stencil
        &&& desc.multisample == multisample(self.ctx.sample_count)
        &&& desc.fragment is Some <==> self.fs_shader is Some
        &&& desc.fragment is Some ==> {
            let fragment = desc.fragment->Some_0;
            &&& fragment.module == self.fs_shader->Some_0
            &&& fragment.entry_point == Some(self.fs_entry)
            &&& fragment.targets@ == self.targets@
        }
        &&& desc.multiview is None
        &&& desc.cache is None
    }

    /// A builder for a pipeline that draws to the target of `ctx`: no depth
    /// or stencil test, one colour target of the context's format without
    /// blending and with every channel written, the default primitive
    /// state, no shaders yet, and the usual entry points.
    pub fn new(ctx: &'a DrawingContext) -> (builder: Self)
        ensures
            builder.ctx == ctx,
            builder.pipeline_layout is None,
            builder.depth_stencil is None,
            builder.vs_shader is None,
            builder.vs_entry@ == DEFAULT_VERTEX_ENTRY@,
            builder.vertex_buffer_layout@.len() == 0,
            builder.fs_shader is None,
            builder.fs_entry@ == DEFAULT_FRAGMENT_ENTRY@,
            builder.targets@.len() == 1,
            builder.targets@[0] is Some,
            builder.targets@[0]->Some_0.format == ctx.spec_format(),
            builder.targets@[0]->Some_0.blend is None,
            write_channels(builder.targets@[0]->Some_0.write_mask) == all_channels(),
            builder.primitive == default_primitive(),
    {
        let mut targets: Vec<Option<wgpu::ColorTargetState>> = Vec::new();
        targets.push(Some(wgpu::ColorTargetState::from(ctx.format())));
        Self {
            ctx,
            depth_stencil: None,
            pipeline_layout: None,
            vs_shader: None,
            vs_entry: DEFAULT_VERTEX_ENTRY,
            fs_shader: None,
            fs_entry: DEFAULT_FRAGMENT_ENTRY,
            vertex_buffer_layout: &[],
            targets,
            primitive: wgpu::PrimitiveState::default(),
        }
    }

    /// Switches the depth and stencil attachment on: with the given state,
    /// or without one with the default depth test.
    pub fn enable_depth_stencil(self, custom_depth_stencil: Option<wgpu::DepthStencilState>) -> (builder:
        Self)
        ensures
            builder.depth_stencil is Some,
            custom_depth_stencil is Some ==> builder.depth_stencil == custom_depth_stencil,
            custom_depth_stencil is None ==> is_default_depth_stencil(
                builder.depth_stencil->Some_0,
            ),
            builder == (Self { depth_stencil: builder.depth_stencil, ..self }),
    {
        let mut builder = self;
        match custom_depth_stencil {
            Some(depth_stencil) => {
                builder.depth_stencil = Some(depth_stencil);
            },
            None => {
                builder.depth_stencil = Some(
                    wgpu::DepthStencilState {
                        format: wgpu::TextureFormat::Depth24Plus,
                        depth_write_enabled: true,
                        depth_compare: wgpu::CompareFunction::LessEqual,
                        stencil: wgpu::StencilState::default(),
                        bias: wgpu::DepthBiasState::default(),
                    },
                );
            },
        }
        builder
    }

    /// Sets the layout of the pipeline's bind groups.
    pub fn pipeline_layout(self, layout: &'a wgpu::PipelineLayout) -> (builder: Self)
        ensures
            builder == (Self { pipeline_layout: Some(layout), ..self }),
    {
        let mut builder = self;
        builder.pipeline_layout = Some(layout);
        builder
    }

    /// Sets the vertex stage: a shader module and its entry point.
    pub fn vs_shader(self, module: &'a wgpu::ShaderModule, entry: &'a str) -> (builder: Self)
        ensures
            builder == (Self { vs_shader: Some(module), vs_entry: entry, ..self }),
    {
        let mut builder = self;
        builder.vs_shader = Some(module);
        builder.vs_entry = entry;
        builder
    }

    /// Sets the fragment stage: a shader module and its entry point.
    pub fn fs_shader(self, module: &'a wgpu::ShaderModule, entry: &'a str) -> (builder: Self)
        ensures
            builder == (Self { fs_shader: Some(module), fs_entry: entry, ..self }),
    {
        let mut builder = self;
        builder.fs_shader = Some(module);
        builder.fs_entry = entry;
        builder
    }

    /// Sets the layouts of the vertex buffers.
    pub fn vertex_buffer_layout(self, layouts: &'a [wgpu::VertexBufferLayout<'a>]) -> (builder:
        Self)
        ensures
            builder == (Self { vertex_buffer_layout: layouts, ..self }),
    {
        let mut builder = self;
        builder.vertex_buffer_layout = layouts;
        builder
    }

    /// Sets how primitives are assembled and rasterised.
    pub fn primitive(self, primitive: wgpu::PrimitiveState) -> (builder: Self)
        ensures
            builder == (Self { primitive, ..self }),
    {
        let mut builder = self;
        builder.primitive = primitive;
        builder
    }

    /// The fragment stage of the pipeline: the fragment shader with its
    /// entry point and the colour targets, or none when no fragment shader
    /// is set, as for a pass that writes depth only.
    pub fn fragment(&self) -> (stage: Option<wgpu::FragmentState<'_>>)
        ensures
            stage is Some <==> self.fs_shader is Some,
            stage is Some ==> {
                let fragment = stage->Some_0;
                &&& fragment.module == self.fs_shader->Some_0
                &&& fragment.entry_point == Some(self.fs_entry)
                &&& fragment.targets@ == self.targets@
            },
    {
        match self.fs_shader {
            Some(module) => Some(
                wgpu::FragmentState {
                    module,
                    entry_point: Some(self.fs_entry),
                    targets: self.targets.as_slice(),
                    compilation_options: wgpu::PipelineCompilationOptions::default(),
                },
            ),
            None => None,
        }
    }

    /// The depth and stencil state of the pipeline, if the attachment is
    /// switched on.
    pub fn depth_stencil_state(&self) -> (state: Option<wgpu::DepthStencilState>)
        ensures
            state == self.depth_stencil,
    {
        match &self.depth_stencil {
            Some(state) => Some(state.clone()),
            None => None,
        }
    }

    /// The multisampling of the pipeline: the sample count of the context,
    /// every sample written, no alpha-to-coverage.
    pub fn multisample_state(&self) -> (state: wgpu::MultisampleState)
        ensures
            state == multisample(self.ctx.sample_count),
    {
        let mut state = wgpu::MultisampleState::default();
        state.count = self.ctx.sample_count;
        state
    }

    /// What the pipeline is made from. The vertex stage must be set; the
    /// fragment stage need not be.
    pub fn description(&self) -> (desc: RenderPipelineDescription<'_>)
        requires
            self.vs_shader is Some,
        ensures
            self.describes(desc),
    {
        let depth_stencil = self.depth_stencil_state();
        let multisample = self.multisample_state();
        RenderPipelineDescription {
            label: RENDER_PIPELINE_LABEL,
            layout: self.pipeline_layout,
            vertex: wgpu::VertexState {
                module: self.vs_shader.unwrap(),
                entry_point: Some(self.vs_entry),
                buffers: self.vertex_buffer_layout,
                compilation_options: wgpu::PipelineCompilationOptions::default(),
            },
            fragment: self.fragment(),
            primitive: self.primitive,
            depth_stencil,
            multisample,
            multiview: None,
            cache: None,
        }
    }
}

/// Collects what a compute pipeline is made from.
pub struct ComputePipelineBuilder<'a> {
    pub device: &'a wgpu::Device,
    pub pipeline_layout: Option<&'a wgpu::PipelineLayout>,
    pub cs_shader: Option<&'a wgpu::ShaderModule>,
    pub cs_entry: &'a str,
}

impl<'a> ComputePipelineBuilder<'a> {
    /// Whether `desc` is what this builder describes: its own stage and
    /// layout, and no cache.
    pub open spec fn describes(self, desc: wgpu::ComputePipelineDescriptor<'_>) -> bool {
        &&& desc.label is Some
        &&& desc.label->Some_0@ == COMPUTE_PIPELINE_LABEL@
        &&& desc.layout == self.pipeline_layout
        &&& self.cs_shader is Some
        &&& desc.module == self.cs_shader->Some_0
        &&& desc.entry_point == Some(self.cs_entry)
        &&& desc.cache is None
    }

    /// A builder for a pipeline that `device` is to make, with no shader
    /// yet and the usual entry point.
    pub fn new(device: &'a wgpu::Device) -> (builder: Self)
        ensures
            builder.device == device,
            builder.pipeline_layout is None,
            builder.cs_shader is None,
            builder.cs_entry@ == DEFAULT_COMPUTE_ENTRY@,
    {
        Self { device, pipeline_layout: None, cs_shader: None, cs_entry: DEFAULT_COMPUTE_ENTRY }
    }

    /// Sets the layout of the pipeline's bind groups.
    pub fn pipeline_layout(self, layout: &'a wgpu::PipelineLayout) -> (builder: Self)
        ensures
            builder == (Self { pipeline_layout: Some(layout), ..self }),
    {
        let mut builder = self;
        builder.pipeline_layout = Some(layout);
        builder
    }

    /// Sets the compute stage: a shader module and its entry point.
    pub fn cs_shader(self, module: &'a wgpu::ShaderModule, entry: &'a str) -> (builder: Self)
        ensures
            builder == (Self { cs_shader: Some(module), cs_entry: entry, ..self }),
    {
        let mut builder = self;
        builder.cs_shader = Some(module);
        builder.cs_entry = entry;
        builder
    }

    /// What the pipeline is made from. The compute stage must be set.
    pub fn descriptor(&self) -> (desc: wgpu::ComputePipelineDescriptor<'_>)
        requires
            self.cs_shader is Some,
        ensures
            self.describes(desc),
    {
        wgpu::ComputePipelineDescriptor {
            label: Some(COMPUTE_PIPELINE_LABEL),
            layout: self.pipeline_layout,
            module: self.cs_shader.unwrap(),
            entry_point: Some(self.cs_entry),
            compilation_options: wgpu::PipelineCompilationOptions::default(),
            cache: None,
        }
    }
}

/// A render pipeline without a fragment stage has no colour target: what a
/// builder without a fragment shader describes writes no colour at all, and
/// a vertex stage is all it takes to describe it.
pub proof fn lemma_no_fragment_no_color_targets(
    builder: RenderPipelineBuilder<'_>,
    desc: RenderPipelineDescription<'_>,
)
    requires
        builder.describes(desc),
        builder.fs_shader is None,
    ensures
        desc.fragment is None,
        desc.color_targets().len() == 0,
{
}

/// With a fragment stage the pipeline writes the builder's colour targets.
pub proof fn lemma_fragment_color_targets(
    builder: RenderPipelineBuilder<'_>,
    desc: RenderPipelineDescription<'_>,
)
    requires
        builder.describes(desc),
        builder.fs_shader is Some,
    ensures
        desc.color_targets() == builder.targets@,
{
}

} // verus!
