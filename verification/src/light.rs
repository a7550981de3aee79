//! Point lights and the GPU-facing uniform record derived from them.
//!
//! A light is authored with a color, a falloff intensity, a cone given by an
//! inner and an outer angle (both as fractions of the full circle), and an
//! inner radius, all as fixed-point fractions of `1.0`. Extraction derives a
//! [`LightUniform`] per visible light every frame; the precomputed
//! multipliers let the shader avoid per-fragment divisions.

use vstd::prelude::*;

use crate::fixed::SCALE;
use crate::fixed::fp_recip;
use crate::fixed::fp_recip_spec;
use crate::transform::Transform2d;
use crate::transform::Vec3Fp;
use crate::RenderError;

verus! {

/// An RGBA color with fixed-point channels; `SCALE` is full intensity.
#[derive(Clone, Copy, Debug, PartialEq, Eq, Structural)]
pub struct Rgba {
    pub r: i64,
    pub g: i64,
    pub b: i64,
    pub a: i64,
}

/// Opaque white, the authoring default.
pub fn white() -> (c: Rgba)
    ensures
        c == (Rgba { r: SCALE, g: SCALE, b: SCALE, a: SCALE }),
{
    Rgba { r: SCALE, g: SCALE, b: SCALE, a: SCALE }
}

/// A scene-owned 2D point light. The world transform lives beside it in the
/// scene snapshot, not in the component itself.
#[derive(Clone, Copy, Debug, PartialEq, Eq, Structural)]
pub struct PointLight {
    pub color: Rgba,
    pub falloff_intensity: i64,
    pub inner_angle: i64,
    pub outer_angle: i64,
    pub inner_radius: i64,
}

impl PointLight {
    /// The documented authoring domain: angles in `[0, 1]`, inner radius in
    /// `[0, 1)`, and channels and intensity in `[0, 1]`.
    pub open spec fn in_domain(self) -> bool {
        &&& 0 <= self.inner_angle <= SCALE
        &&& 0 <= self.outer_angle <= SCALE
        &&& 0 <= self.inner_radius < SCALE
        &&& 0 <= self.falloff_intensity <= SCALE
        &&& 0 <= self.color.r <= SCALE
        &&& 0 <= self.color.g <= SCALE
        &&& 0 <= self.color.b <= SCALE
        &&& 0 <= self.color.a <= SCALE
    }

    /// A light whose multipliers are both defined: the domain holds and the
    /// angle range is not empty. Uniform derivation assumes this; the
    /// boundary where lights are authored establishes it once.
    pub open spec fn safe(self) -> bool {
        self.in_domain() && self.inner_angle != self.outer_angle
    }

    /// The outcome of boundary validation: the full inner radius and the
    /// empty angle range are named as the division-prone configurations;
    /// any other value outside the domain is a plain range violation.
    pub open spec fn check(self) -> Result<(), RenderError> {
        if !(0 <= self.inner_angle <= SCALE) || !(0 <= self.outer_angle <= SCALE) {
            Err(RenderError::ParamOutOfRange)
        } else if self.inner_radius == SCALE {
            Err(RenderError::InnerRadiusFull)
        } else if !(0 <= self.inner_radius < SCALE) || !(0 <= self.falloff_intensity <= SCALE) || !(
        0 <= self.color.r <= SCALE) || !(0 <= self.color.g <= SCALE) || !(0 <= self.color.b
            <= SCALE) || !(0 <= self.color.a <= SCALE) {
            Err(RenderError::ParamOutOfRange)
        } else if self.inner_angle == self.outer_angle {
            Err(RenderError::EmptyAngleRange)
        } else {
            Ok(())
        }
    }

    /// Checks a light at the authoring boundary, naming the first violated
    /// invariant. Division-prone configurations are rejected here so that
    /// per-frame extraction never re-validates.
    pub fn validate(&self) -> (r: Result<(), RenderError>)
        ensures
            r == self.check(),
            r is Ok <==> self.safe(),
            r == Err::<(), RenderError>(RenderError::InnerRadiusFull) <==> 0 <= self.inner_angle
                <= SCALE && 0 <= self.outer_angle <= SCALE && self.inner_radius == SCALE,
            r == Err::<(), RenderError>(RenderError::EmptyAngleRange) <==> self.in_domain()
                && self.inner_angle == self.outer_angle,
    {
        if !(0 <= self.inner_angle && self.inner_angle <= SCALE) {
            return Err(RenderError::ParamOutOfRange);
        }
        if !(0 <= self.outer_angle && self.outer_angle <= SCALE) {
            return Err(RenderError::ParamOutOfRange);
        }
        if self.inner_radius == SCALE {
            return Err(RenderError::InnerRadiusFull);
        }
        if !(0 <= self.inner_radius && self.inner_radius < SCALE) {
            return Err(RenderError::ParamOutOfRange);
        }
        if !(0 <= self.falloff_intensity && self.falloff_intensity <= SCALE) {
            return Err(RenderError::ParamOutOfRange);
        }
        if !(0 <= self.color.r && self.color.r <= SCALE) || !(0 <= self.color.g && self.color.g
            <= SCALE) || !(0 <= self.color.b && self.color.b <= SCALE) || !(0 <= self.color.a
            && self.color.a <= SCALE) {
            return Err(RenderError::ParamOutOfRange);
        }
        if self.inner_angle == self.outer_angle {
            return Err(RenderError::EmptyAngleRange);
        }
        Ok(())
    }
}

impl Default for PointLight {
    /// The authoring default: white, full intensity, full angles, full inner
    /// radius. Note that the default is deliberately the identity of the
    /// shader math and is *not* `safe()`: both multipliers are undefined on
    /// it, and `validate` rejects it until the author narrows the cone.
    fn default() -> (d: PointLight)
        ensures
            d.color == (Rgba { r: SCALE, g: SCALE, b: SCALE, a: SCALE }),
            d.falloff_intensity == SCALE,
            d.inner_angle == SCALE,
            d.outer_angle == SCALE,
            d.inner_radius == SCALE,
    {
        PointLight {
            color: Rgba { r: SCALE, g: SCALE, b: SCALE, a: SCALE },
            falloff_intensity: SCALE,
            inner_angle: SCALE,
            outer_angle: SCALE,
            inner_radius: SCALE,
        }
    }
}

/// The render-owned, GPU-facing record rebuilt for each visible light every
/// frame.
#[derive(Clone, Copy, Debug, PartialEq, Eq, Structural)]
pub struct LightUniform {
    /// World position of the light.
    pub position: Vec3Fp,
    pub color: Rgba,
    pub falloff_intensity: i64,
    pub outer_angle: i64,
    /// `1 / (1 - inner_radius)`, precomputed.
    pub inner_radius_mult: i64,
    /// `1 / (outer_angle - inner_angle)`, precomputed.
    pub inner_angle_mult: i64,
    /// Whether the shader treats the light as a full circle. Derived by
    /// testing the *inner* angle against the full turn; the outer angle
    /// plays no part, which is the authored behavior and is pinned by test.
    pub is_full_angle: bool,
}

/// What `1 / (outer - inner)` evaluates to in fixed point, rounding toward
/// zero; the sign follows the sign of the angle range.
pub open spec fn angle_mult_spec(inner: int, outer: int) -> int
    recommends
        inner != outer,
{
    if outer > inner {
        fp_recip_spec(outer - inner)
    } else {
        -fp_recip_spec(inner - outer)
    }
}

/// The uniform a given light and world transform derive to.
pub open spec fn uniform_of(light: PointLight, transform: Transform2d) -> LightUniform {
    LightUniform {
        position: Vec3Fp { x: transform.tx, y: transform.ty, z: transform.tz },
        color: light.color,
        falloff_intensity: light.falloff_intensity,
        outer_angle: light.outer_angle,
        inner_radius_mult: fp_recip_spec(SCALE - light.inner_radius) as i64,
        inner_angle_mult: angle_mult_spec(
            light.inner_angle as int,
            light.outer_angle as int,
        ) as i64,
        is_full_angle: light.inner_angle == SCALE,
    }
}

/// Derives the GPU uniform for one visible light: position from the world
/// transform, precomputed reciprocals for the radius and angle falloffs, and
/// the full-angle flag.
pub fn derive_uniform(light: &PointLight, transform: &Transform2d) -> (u: LightUniform)
    requires
        light.safe(),
    ensures
        u == uniform_of(*light, *transform),
{
    let inner_angle_mult: i64 = if light.outer_angle > light.inner_angle {
        fp_recip(light.outer_angle - light.inner_angle)
    } else {
        -fp_recip(light.inner_angle - light.outer_angle)
    };
    LightUniform {
        position: Vec3Fp { x: transform.tx, y: transform.ty, z: transform.tz },
        color: light.color,
        falloff_intensity: light.falloff_intensity,
        outer_angle: light.outer_angle,
        inner_radius_mult: fp_recip(SCALE - light.inner_radius),
        inner_angle_mult,
        is_full_angle: light.inner_angle == SCALE,
    }
}

} // verus!
