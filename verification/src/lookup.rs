//! The two immutable lookup textures of the lighting pipeline.
//!
//! Both are generated once, at pipeline construction, by the host's table
//! generator, and are read-only shared state for the rest of the process:
//! a 2048 x 128 single-channel float curve texture encoding the radial
//! falloff exponent family, and a 256 x 256 four-channel float texture
//! encoding, per texel, the clamped linear attenuation, the angular
//! falloff, and the direction to the texture center. Their dimensions and
//! channel formats are fixed constants — the shaders sample them by exact
//! texel — and this module is their single source of truth.

use vstd::prelude::*;

verus! {

/// Width of the falloff curve texture.
pub const FALLOFF_WIDTH: u32 = 2048;

/// Height of the falloff curve texture.
pub const FALLOFF_HEIGHT: u32 = 128;

/// Side length of the square point-light radial texture.
pub const RADIAL_SIZE: u32 = 256;

/// The channel formats the subsystem stores and renders into.
#[derive(Clone, Copy, Debug, PartialEq, Eq, Structural)]
pub enum TextureFormat {
    /// One 32-bit float channel.
    RFloat32,
    /// Four 32-bit float channels.
    RgbaFloat32,
    /// 8-bit-per-channel, gamma-corrected color, the output target format.
    Bgra8Srgb,
}

/// The shape of a texture: dimensions and channel format.
#[derive(Clone, Copy, Debug, PartialEq, Eq, Structural)]
pub struct TextureDescriptor {
    pub width: u32,
    pub height: u32,
    pub format: TextureFormat,
}

/// The descriptor of the falloff curve texture: 2048 x 128, one float
/// channel per texel.
pub fn falloff_lookup_descriptor() -> (d: TextureDescriptor)
    ensures
        d == (TextureDescriptor {
            width: FALLOFF_WIDTH,
            height: FALLOFF_HEIGHT,
            format: TextureFormat::RFloat32,
        }),
{
    TextureDescriptor {
        width: FALLOFF_WIDTH,
        height: FALLOFF_HEIGHT,
        format: TextureFormat::RFloat32,
    }
}

/// The descriptor of the point-light radial texture: 256 x 256, four float
/// channels per texel.
pub fn radial_lookup_descriptor() -> (d: TextureDescriptor)
    ensures
        d == (TextureDescriptor {
            width: RADIAL_SIZE,
            height: RADIAL_SIZE,
            format: TextureFormat::RgbaFloat32,
        }),
{
    TextureDescriptor { width: RADIAL_SIZE, height: RADIAL_SIZE, format: TextureFormat::RgbaFloat32 }
}

/// The linear index of texel `(x, y)` in a row-major texel array.
pub fn texel_index(x: u32, y: u32, width: u32) -> (i: usize)
    requires
        x < width,
        y * width + x <= usize::MAX,
    ensures
        i == y * width + x,
{
    (y as usize) * (width as usize) + (x as usize)
}

/// How many texels a texture holds.
pub fn texel_count(d: &TextureDescriptor) -> (n: usize)
    requires
        d.width * d.height <= usize::MAX,
    ensures
        n == d.width * d.height,
{
    (d.width as usize) * (d.height as usize)
}

} // verus!
