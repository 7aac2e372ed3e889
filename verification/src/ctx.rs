//! The drawing context: which of the two render targets is active, how large
//! it is, and how it is configured.
//!
//! The context is the record of the target, not the target itself. A resize
//! updates the record and reports whether the live surface has to be
//! configured anew; whoever owns the surface and the device does that.
use vstd::prelude::*;
pub use crate::primitive::Size;
use crate::surface_cfg::{usable, SurfaceConfigBuilder};

verus! {

/// The sample count of a context that does not multisample.
pub const SINGLE_SAMPLE: u32 = 1;

/// A window surface as a render target: its configuration, its size in
/// pixels, and the display's scale factor.
#[derive(Debug)]
pub struct SurfaceDrawingContext {
    pub config: wgpu::SurfaceConfiguration,
    pub size: Size,
    pub dpi: u32,
}

/// An off-screen texture as a render target: a format and a size in pixels.
#[derive(Debug)]
pub struct TextureDrawingContext {
    pub format: wgpu::TextureFormat,
    pub size: Size,
}

/// The two kinds of render target.
#[derive(Debug)]
pub enum DrawingContextType {
    Surface(SurfaceDrawingContext),
    Texture(TextureDrawingContext),
}

/// The active render target and the sample count that pipelines built for it
/// are to use.
#[derive(Debug)]
pub struct DrawingContext {
    pub ty: DrawingContextType,
    pub sample_count: u32,
}

impl SurfaceDrawingContext {
    /// The stored configuration describes a target of the stored size.
    pub open spec fn wf(self) -> bool {
        self.config.width == self.size.width && self.config.height == self.size.height
    }

    /// This target after a request to resize it to `size`: unchanged when
    /// `size` has no area, else of that size, the configuration with it.
    pub open spec fn resized(self, size: Size) -> Self {
        if size.has_area() {
            SurfaceDrawingContext {
                config: wgpu::SurfaceConfiguration {
                    width: size.width,
                    height: size.height,
                    ..self.config
                },
                size,
                dpi: self.dpi,
            }
        } else {
            self
        }
    }

    /// Takes a request to resize the target to `size`. One without area is
    /// ignored. Otherwise the size and the configuration are updated, and the
    /// result says that the live surface must be configured with it.
    pub fn resize(&mut self, size: Size) -> (reconfigure: bool)
        ensures
            *final(self) == old(self).resized(size),
            reconfigure == size.has_area(),
    {
        if size.width > 0 && size.height > 0 {
            self.size = size;
            self.config.width = size.width;
            self.config.height = size.height;
            true
        } else {
            false
        }
    }
}

impl TextureDrawingContext {
    /// This target after a request to resize it to `size`: unchanged when
    /// `size` has no area, else of that size.
    pub open spec fn resized(self, size: Size) -> Self {
        if size.has_area() {
            TextureDrawingContext { format: self.format, size }
        } else {
            self
        }
    }

    /// Takes a request to resize the target to `size`. One without area is
    /// ignored.
    pub fn resize(&mut self, size: Size)
        ensures
            *final(self) == old(self).resized(size),
    {
        if size.width > 0 && size.height > 0 {
            self.size = size;
        }
    }
}

impl DrawingContext {
    /// Whether the target is a window surface.
    pub open spec fn is_surface(self) -> bool {
        self.ty is Surface
    }

    /// The pixel format of the target.
    pub open spec fn spec_format(self) -> wgpu::TextureFormat {
        match self.ty {
            DrawingContextType::Surface(target) => target.config.format,
            DrawingContextType::Texture(target) => target.format,
        }
    }

    /// The size of the target in pixels.
    pub open spec fn spec_size(self) -> Size {
        match self.ty {
            DrawingContextType::Surface(target) => target.size,
            DrawingContextType::Texture(target) => target.size,
        }
    }

    /// The number of pixels to one logical unit: the display's scale factor
    /// for a surface, one for a texture.
    pub open spec fn scale_factor(self) -> u32 {
        match self.ty {
            DrawingContextType::Surface(target) => target.dpi,
            DrawingContextType::Texture(_) => 1,
        }
    }

    /// The size of the target in logical units: the pixel size divided by
    /// the scale factor, rounding down.
    pub open spec fn spec_resolution(self) -> Size {
        self.spec_size().scaled_down(self.scale_factor())
    }

    /// A surface's configuration describes a target of the stored size.
    pub open spec fn wf(self) -> bool {
        match self.ty {
            DrawingContextType::Surface(target) => target.wf(),
            DrawingContextType::Texture(_) => true,
        }
    }

    /// This context after a request to resize its target to `size`. The kind
    /// of target and the sample count stay as they are.
    pub open spec fn resized(self, size: Size) -> Self {
        DrawingContext {
            ty: match self.ty {
                DrawingContextType::Surface(target) => DrawingContextType::Surface(
                    target.resized(size),
                ),
                DrawingContextType::Texture(target) => DrawingContextType::Texture(
                    target.resized(size),
                ),
            },
            sample_count: self.sample_count,
        }
    }

    /// A context for an off-screen texture of the given size and format,
    /// without multisampling.
    pub fn new_for_texture(size: Size, format: wgpu::TextureFormat) -> (ctx: Self)
        ensures
            ctx.ty == DrawingContextType::Texture(TextureDrawingContext { format, size }),
            ctx.sample_count == SINGLE_SAMPLE,
    {
        Self {
            ty: DrawingContextType::Texture(TextureDrawingContext { format, size }),
            sample_count: SINGLE_SAMPLE,
        }
    }

    /// A context for a window surface of `size` pixels on a display with
    /// scale factor `dpi`, configured as `cfg_builder` says for a surface
    /// with capabilities `caps`, without multisampling. `None` when the
    /// surface reports no format or no alpha mode.
    pub fn new_for_surface(
        size: Size,
        dpi: u32,
        cfg_builder: &SurfaceConfigBuilder<'_>,
        caps: &wgpu::SurfaceCapabilities,
    ) -> (made: Option<Self>)
        ensures
            made is Some <==> usable(*caps),
            made is Some ==> {
                let ctx = made->Some_0;
                &&& ctx.ty is Surface
                &&& cfg_builder.yields(*caps, size.width, size.height, ctx.ty->Surface_0.config)
                &&& ctx.spec_size() == size
                &&& ctx.scale_factor() == dpi
                &&& ctx.sample_count == SINGLE_SAMPLE
                &&& ctx.wf()
            },
    {
        match cfg_builder.build_with(caps, size.width, size.height) {
            Some(config) => Some(
                Self {
                    ty: DrawingContextType::Surface(SurfaceDrawingContext { config, size, dpi }),
                    sample_count: SINGLE_SAMPLE,
                },
            ),
            None => None,
        }
    }

    /// This context with the sample count that pipelines are to be built
    /// with.
    pub fn with_sample_count(self, sample_count: u32) -> (ctx: Self)
        ensures
            ctx == (DrawingContext { sample_count, ..self }),
    {
        let mut ctx = self;
        ctx.sample_count = sample_count;
        ctx
    }

    /// The pixel format of the target: the configured one of a surface, the
    /// stored one of a texture.
    pub fn format(&self) -> (format: wgpu::TextureFormat)
        ensures
            format == self.spec_format(),
    {
        match &self.ty {
            DrawingContextType::Surface(target) => target.config.format,
            DrawingContextType::Texture(target) => target.format,
        }
    }

    /// The surface target, if the context has one.
    pub fn surface(&self) -> (target: Option<&SurfaceDrawingContext>)
        ensures
            target is Some <==> self.is_surface(),
            target is Some ==> *target->Some_0 == self.ty->Surface_0,
    {
        match &self.ty {
            DrawingContextType::Surface(target) => Some(target),
            DrawingContextType::Texture(_) => None,
        }
    }

    /// The size of the target in pixels.
    pub fn size(&self) -> (size: &Size)
        ensures
            *size == self.spec_size(),
    {
        match &self.ty {
            DrawingContextType::Surface(target) => &target.size,
            DrawingContextType::Texture(target) => &target.size,
        }
    }

    /// The size of the target in logical units. A surface's pixel size is
    /// divided by the display's scale factor, rounding down; a texture's is
    /// taken as it is.
    pub fn resolution(&self) -> (logical: Size)
        requires
            self.scale_factor() > 0,
        ensures
            logical == self.spec_resolution(),
    {
        match &self.ty {
            DrawingContextType::Surface(target) => Size {
                width: target.size.width / target.dpi,
                height: target.size.height / target.dpi,
            },
            DrawingContextType::Texture(target) => target.size,
        }
    }

    /// Takes a request to resize the target to `size`. One without area is
    /// ignored. Otherwise the stored size is updated, for a surface the
    /// configuration too, and the result says whether the live surface must
    /// be configured with it: it must for a surface and never for a texture.
    pub fn resize(&mut self, size: Size) -> (reconfigure: bool)
        ensures
            *final(self) == old(self).resized(size),
            reconfigure == (old(self).is_surface() && size.has_area()),
    {
        match &mut self.ty {
            DrawingContextType::Surface(target) => target.resize(size),
            DrawingContextType::Texture(target) => {
                target.resize(size);
                false
            },
        }
    }
}

/// A request to resize to a size without area changes nothing.
pub proof fn lemma_resize_without_area(ctx: DrawingContext, size: Size)
    requires
        size.width == 0 || size.height == 0,
    ensures
        ctx.resized(size) == ctx,
        ctx.resized(size).spec_size() == ctx.spec_size(),
{
}

/// After a resize to a size with area the context has that size, and the
/// stored configuration of a surface has its width and height.
pub proof fn lemma_resize_with_area(ctx: DrawingContext, size: Size)
    requires
        size.width > 0,
        size.height > 0,
    ensures
        ctx.resized(size).spec_size() == size,
        ctx.is_surface() ==> {
            let config = ctx.resized(size).ty->Surface_0.config;
            config.width == size.width && config.height == size.height
        },
        ctx.resized(size).wf(),
{
}

/// A resize never turns one kind of target into the other, and leaves the
/// format, the scale factor and the sample count as they are.
pub proof fn lemma_resize_keeps_kind(ctx: DrawingContext, size: Size)
    ensures
        ctx.resized(size).is_surface() == ctx.is_surface(),
        ctx.resized(size).spec_format() == ctx.spec_format(),
        ctx.resized(size).scale_factor() == ctx.scale_factor(),
        ctx.resized(size).sample_count == ctx.sample_count,
        ctx.wf() ==> ctx.resized(size).wf(),
{
}

/// Among requests to resize, one without area is as if it had not been
/// made: the context ends with the size of the last request that had area.
pub proof fn lemma_resize_sequence(ctx: DrawingContext, first: Size, skipped: Size, last: Size)
    requires
        first.has_area(),
        !skipped.has_area(),
        last.has_area(),
    ensures
        ctx.resized(first).resized(skipped) == ctx.resized(first),
        ctx.resized(first).resized(skipped).spec_size() == first,
        ctx.resized(first).resized(skipped).resized(last).spec_size() == last,
        ctx.resized(first).resized(skipped).resized(last) == ctx.resized(last),
{
}

/// The logical resolution of a surface is its pixel size divided by the
/// scale factor, each dimension rounded down.
pub proof fn lemma_surface_resolution(ctx: DrawingContext)
    requires
        ctx.is_surface(),
    ensures
        ctx.spec_resolution() == (Size {
            width: ctx.spec_size().width / ctx.ty->Surface_0.dpi,
            height: ctx.spec_size().height / ctx.ty->Surface_0.dpi,
        }),
{
}

/// The logical resolution of a texture is its pixel size.
pub proof fn lemma_texture_resolution(ctx: DrawingContext)
    requires
        !ctx.is_surface(),
    ensures
        ctx.spec_resolution() == ctx.spec_size(),
{
}

} // verus!
