//! Instance descriptors for the renderer's bind groups.
//!
//! The material and instance descriptors carry their numeric fields as raw
//! IEEE-754 bit patterns; interpreting them numerically is the renderer's
//! concern. The bind-group layout entries they produce are modelled here as
//! plain values, so what each binding declares is pinned down exactly.

use vstd::prelude::*;

verus! {

/// The shader stages a binding is visible to, as a bit set: bit 0 vertex,
/// bit 1 fragment, bit 2 compute.
pub struct ShaderStages {
    /// The raw bit set.
    pub bits: u32,
}

/// The vertex stage flag.
pub const STAGE_VERTEX: u32 = 1;

/// The fragment stage flag.
pub const STAGE_FRAGMENT: u32 = 2;

/// What a bind-group binding contains.
pub enum BindingLayout {
    /// A uniform buffer; `dynamic` marks a dynamic offset, and
    /// `has_min_binding_size` whether a minimum size is declared.
    UniformBuffer { dynamic: bool, has_min_binding_size: bool },
    /// A sampled two-dimensional texture of unsigned components.
    SampledTexture { multisampled: bool },
    /// A sampler; `comparison` marks a comparison sampler.
    Sampler { comparison: bool },
}

/// A bind-group layout entry, without its binding index: which stages see
/// the binding, what it contains, and that it is not an array.
pub struct PreBindGroupLayoutEntry {
    /// The stages the binding is visible to.
    pub visibility: ShaderStages,
    /// What the binding contains.
    pub ty: BindingLayout,
    /// Whether the binding is an array of resources; never used here.
    pub has_count: bool,
}

/// A physically-based material: albedo colour, roughness, reflectance and
/// ambient ratio, each carried as an IEEE-754 bit pattern.
pub struct Material {
    /// The albedo's four channels, as bit patterns.
    pub albedo: (u64, u64, u64, u64),
    /// Roughness, as a bit pattern.
    pub roughness: u64,
    /// Reflectance, as a bit pattern.
    pub reflectance: u64,
    /// Ambient ratio, as a bit pattern.
    pub ambient_ratio: u64,
}

impl Material {
    /// The layout entry of the material's uniform buffer: visible to the
    /// fragment stage only, not dynamic, with no declared minimum size.
    pub fn bgl_entry() -> (r: PreBindGroupLayoutEntry)
        ensures
            r.visibility.bits == STAGE_FRAGMENT,
            r.ty == (BindingLayout::UniformBuffer { dynamic: false, has_min_binding_size: false }),
            !r.has_count,
    {
        PreBindGroupLayoutEntry {
            visibility: ShaderStages { bits: STAGE_FRAGMENT },
            ty: BindingLayout::UniformBuffer { dynamic: false, has_min_binding_size: false },
            has_count: false,
        }
    }
}

/// An instance descriptor: the model matrix (sixteen bit patterns, row
/// major), the material, an optional texture, and backface culling.
pub struct InstanceDescriptor {
    /// The model matrix entries, as bit patterns, row major.
    pub matrix: Vec<u64>,
    /// The instance's material.
    pub material: Material,
    /// The texture image, when there is one: width, height, and the bytes
    /// of the image, four per pixel.
    pub texture: Option<TextureData>,
    /// Whether back faces are culled.
    pub backface_culling: bool,
}

/// A decoded texture image: its dimensions and its bytes, four per pixel.
#[derive(Clone, Debug)]
pub struct TextureData {
    /// Width in pixels.
    pub width: u32,
    /// Height in pixels.
    pub height: u32,
    /// The pixel bytes, four per pixel, row major.
    pub rgba: Vec<u8>,
}

impl InstanceDescriptor {
    /// The instance descriptor is sixteen matrix entries.
    pub open spec fn wf(&self) -> bool {
        self.matrix@.len() == 16
    }

    /// The layout entry of the model-matrix uniform buffer: visible to the
    /// vertex and fragment stages, not dynamic, with no declared minimum
    /// size.
    pub fn matrix_bgl_entry() -> (r: PreBindGroupLayoutEntry)
        ensures
            r.visibility.bits == STAGE_VERTEX | STAGE_FRAGMENT,
            r.ty == (BindingLayout::UniformBuffer { dynamic: false, has_min_binding_size: false }),
            !r.has_count,
    {
        PreBindGroupLayoutEntry {
            visibility: ShaderStages { bits: STAGE_VERTEX | STAGE_FRAGMENT },
            ty: BindingLayout::UniformBuffer { dynamic: false, has_min_binding_size: false },
            has_count: false,
        }
    }

    /// The layout entry of the material's uniform buffer; the same entry
    /// `Material::bgl_entry` gives.
    pub fn material_bgl_entry() -> (r: PreBindGroupLayoutEntry)
        ensures
            r.visibility.bits == STAGE_FRAGMENT,
            r.ty == (BindingLayout::UniformBuffer { dynamic: false, has_min_binding_size: false }),
            !r.has_count,
    {
        Material::bgl_entry()
    }

    /// The layout entry of the texture view: a sampled two-dimensional
    /// texture visible to the fragment stage, not multisampled.
    pub fn textureview_bgl_entry() -> (r: PreBindGroupLayoutEntry)
        ensures
            r.visibility.bits == STAGE_FRAGMENT,
            r.ty == (BindingLayout::SampledTexture { multisampled: false }),
            !r.has_count,
    {
        PreBindGroupLayoutEntry {
            visibility: ShaderStages { bits: STAGE_FRAGMENT },
            ty: BindingLayout::SampledTexture { multisampled: false },
            has_count: false,
        }
    }

    /// The layout entry of the texture sampler: visible to the fragment
    /// stage, not a comparison sampler.
    pub fn sampler_bgl_entry() -> (r: PreBindGroupLayoutEntry)
        ensures
            r.visibility.bits == STAGE_FRAGMENT,
            r.ty == (BindingLayout::Sampler { comparison: false }),
            !r.has_count,
    {
        PreBindGroupLayoutEntry {
            visibility: ShaderStages { bits: STAGE_FRAGMENT },
            ty: BindingLayout::Sampler { comparison: false },
            has_count: false,
        }
    }
}

} // verus!
