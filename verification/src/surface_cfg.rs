//! Builds the configuration of a presentation surface from what the
//! surface reports that it supports. Whoever owns the surface asks it.
use vstd::prelude::*;
use crate::gpu::{render_attachment_usage, usage_flags, RENDER_ATTACHMENT};

verus! {

/// The frames that may be in flight at once unless the caller says otherwise.
pub const DEFAULT_FRAME_LATENCY: u32 = 2;

/// Collects the options of a surface configuration. What is left unset is
/// taken from the capabilities of the surface when the configuration is built.
pub struct SurfaceConfigBuilder<'a> {
    pub usage: wgpu::TextureUsages,
    pub format: Option<wgpu::TextureFormat>,
    pub present_mode: wgpu::PresentMode,
    pub alpha_mode: Option<wgpu::CompositeAlphaMode>,
    pub view_formats: &'a [wgpu::TextureFormat],
    pub desired_maximum_frame_latency: u32,
}

/// Whether a surface with these capabilities can be configured at all: it
/// reports at least one format and one alpha mode.
pub open spec fn usable(caps: wgpu::SurfaceCapabilities) -> bool {
    caps.formats@.len() > 0 && caps.alpha_modes@.len() > 0
}

impl<'a> SurfaceConfigBuilder<'a> {
    /// Whether `config` is what this builder yields for a usable surface with
    /// capabilities `caps` at `width` by `height` pixels: the builder's own
    /// choice where it made one, else the first the surface reports.
    pub open spec fn yields(
        self,
        caps: wgpu::SurfaceCapabilities,
        width: u32,
        height: u32,
        config: wgpu::SurfaceConfiguration,
    ) -> bool {
        &&& config.usage == self.usage
        &&& config.format == match self.format {
            Some(format) => format,
            None => caps.formats@[0],
        }
        &&& config.width == width
        &&& config.height == height
        &&& config.present_mode == self.present_mode
        &&& config.alpha_mode == match self.alpha_mode {
            Some(mode) => mode,
            None => caps.alpha_modes@[0],
        }
        &&& config.view_formats@ == self.view_formats@
        &&& config.desired_maximum_frame_latency == self.desired_maximum_frame_latency
    }

    /// A builder with the defaults: render-attachment usage, FIFO
    /// presentation, two frames in flight, no extra view formats, and the
    /// format and alpha mode left to the surface.
    pub fn new() -> (builder: Self)
        ensures
            usage_flags(builder.usage) == set![RENDER_ATTACHMENT],
            builder.format is None,
            builder.present_mode == wgpu::PresentMode::Fifo,
            builder.alpha_mode is None,
            builder.view_formats@.len() == 0,
            builder.desired_maximum_frame_latency == DEFAULT_FRAME_LATENCY,
    {
        Self {
            usage: render_attachment_usage(),
            format: None,
            present_mode: wgpu::PresentMode::Fifo,
            alpha_mode: None,
            view_formats: &[],
            desired_maximum_frame_latency: DEFAULT_FRAME_LATENCY,
        }
    }

    /// Fixes the texture format instead of taking the surface's preferred one.
    pub fn format(self, format: wgpu::TextureFormat) -> (builder: Self)
        ensures
            builder == (Self { format: Some(format), ..self }),
    {
        let mut builder = self;
        builder.format = Some(format);
        builder
    }

    /// Fixes the alpha mode instead of taking the surface's first one.
    pub fn alpha_mode(self, mode: wgpu::CompositeAlphaMode) -> (builder: Self)
        ensures
            builder == (Self { alpha_mode: Some(mode), ..self }),
    {
        let mut builder = self;
        builder.alpha_mode = Some(mode);
        builder
    }

    /// The configuration for a surface with capabilities `caps` at `width` by
    /// `height` pixels, or `None` when the surface reports no format or no
    /// alpha mode, which is how it says that the adapter cannot present to it.
    pub fn build_with(
        &self,
        caps: &wgpu::SurfaceCapabilities,
        width: u32,
        height: u32,
    ) -> (built: Option<wgpu::SurfaceConfiguration>)
        ensures
            built is Some <==> usable(*caps),
            built is Some ==> self.yields(*caps, width, height, built->Some_0),
    {
        if caps.formats.len() == 0 || caps.alpha_modes.len() == 0 {
            return None;
        }
        let format = match self.format {
            Some(format) => format,
            None => caps.formats[0],
        };
        let alpha_mode = match self.alpha_mode {
            Some(mode) => mode,
            None => caps.alpha_modes[0],
        };
        let mut view_formats: Vec<wgpu::TextureFormat> = Vec::new();
        let mut i: usize = 0;
        while i < self.view_formats.len()
            invariant
                i <= self.view_formats@.len(),
                view_formats@ == self.view_formats@.take(i as int),
            decreases self.view_formats@.len() - i,
        {
            view_formats.push(self.view_formats[i]);
            i += 1;
        }
        assert(self.view_formats@.take(i as int) =~= self.view_formats@);
        Some(
            wgpu::SurfaceConfiguration {
                usage: self.usage,
                format,
                width,
                height,
                present_mode: self.present_mode,
                alpha_mode,
                view_formats,
                desired_maximum_frame_latency: self.desired_maximum_frame_latency,
            },
        )
    }
}

} // verus!
