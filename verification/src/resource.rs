//! Creation parameters of GPU resources, as plain values.

use vstd::prelude::*;

verus! {

/// What a buffer may be used for.
#[derive(Clone, Copy, Debug, PartialEq, Eq)]
pub struct BufferUsages {
    pub vertex: bool,
    pub index: bool,
    pub uniform: bool,
    pub copy_dst: bool,
}

/// A buffer that is created holding `contents` and never written again.
#[derive(Clone, Debug, PartialEq, Eq)]
pub struct BufferInit {
    pub contents: Vec<u8>,
    pub usage: BufferUsages,
}

/// A buffer of `size` bytes that is created empty and written by the queue.
#[derive(Clone, Copy, Debug, PartialEq, Eq)]
pub struct BufferSettings {
    pub size: u64,
    pub usage: BufferUsages,
    pub mapped_at_creation: bool,
}

/// The usage of a static vertex buffer.
pub open spec fn vertex_usage() -> BufferUsages {
    BufferUsages { vertex: true, index: false, uniform: false, copy_dst: false }
}

/// The usage of a static index buffer.
pub open spec fn index_usage() -> BufferUsages {
    BufferUsages { vertex: false, index: true, uniform: false, copy_dst: false }
}

/// The usage of a uniform buffer that the queue writes every frame.
pub open spec fn uniform_usage() -> BufferUsages {
    BufferUsages { vertex: false, index: false, uniform: true, copy_dst: true }
}

/// The format of the texels of a texture.
#[derive(Clone, Copy, Debug, PartialEq, Eq)]
pub enum TextureFormat {
    /// Four 8-bit channels, sRGB-encoded.
    Rgba8UnormSrgb,
    /// One single-precision depth value.
    Depth32Float,
}

/// The dimensionality of a texture.
#[derive(Clone, Copy, Debug, PartialEq, Eq)]
pub enum TextureDimension {
    D2,
}

/// How a texture is seen through a view.
#[derive(Clone, Copy, Debug, PartialEq, Eq)]
pub enum ViewDimension {
    D2,
    Cube,
}

/// What a texture may be used for.
#[derive(Clone, Copy, Debug, PartialEq, Eq)]
pub struct TextureUsages {
    pub texture_binding: bool,
    pub copy_dst: bool,
    pub render_attachment: bool,
}

/// The extent of a texture in texels and layers.
#[derive(Clone, Copy, Debug, PartialEq, Eq)]
pub struct Extent3d {
    pub width: u32,
    pub height: u32,
    pub depth_or_array_layers: u32,
}

/// The creation parameters of a texture.
#[derive(Clone, Copy, Debug, PartialEq, Eq)]
pub struct TextureSettings {
    pub size: Extent3d,
    pub mip_level_count: u32,
    pub sample_count: u32,
    pub dimension: TextureDimension,
    pub format: TextureFormat,
    pub usage: TextureUsages,
}

/// How the bytes handed to a texture upload are laid out.
#[derive(Clone, Copy, Debug, PartialEq, Eq)]
pub struct ImageDataLayout {
    pub offset: u64,
    pub bytes_per_row: u32,
    pub rows_per_image: u32,
}

/// How a sampler filters between texels.
#[derive(Clone, Copy, Debug, PartialEq, Eq)]
pub enum FilterMode {
    Nearest,
    Linear,
}

/// The creation parameters of a sampler; what is not named keeps its default.
#[derive(Clone, Copy, Debug, PartialEq, Eq)]
pub struct SamplerSettings {
    pub mag_filter: FilterMode,
    pub min_filter: FilterMode,
}

/// The shader stages that can see a binding.
#[derive(Clone, Copy, Debug, PartialEq, Eq)]
pub struct ShaderStages {
    pub vertex: bool,
    pub fragment: bool,
    pub compute: bool,
}

/// What is bound at a binding.
#[derive(Clone, Copy, Debug, PartialEq, Eq)]
pub enum BindingKind {
    /// A uniform buffer, bound whole, without dynamic offset.
    UniformBuffer,
    /// A filterable, single-sampled cube texture.
    CubeTexture,
    /// A filtering sampler.
    FilteringSampler,
}

/// One entry of a bind-group layout.
#[derive(Clone, Copy, Debug, PartialEq, Eq)]
pub struct BindingEntry {
    pub binding: u32,
    pub visibility: ShaderStages,
    pub kind: BindingKind,
}

/// Visible to every shader stage.
pub open spec fn all_stages() -> ShaderStages {
    ShaderStages { vertex: true, fragment: true, compute: true }
}

/// Visible to the fragment stage only.
pub open spec fn fragment_stage() -> ShaderStages {
    ShaderStages { vertex: false, fragment: true, compute: false }
}

} // verus!
