//! What a renderer draws to.
use vstd::prelude::*;

verus! {

/// The target of one frame: the surface of a window, or a texture.
pub enum RenderTarget<'a> {
    Surface(&'a wgpu::Surface<'a>),
    Texture(&'a wgpu::Texture),
}

} // verus!
