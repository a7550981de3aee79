use light2d::fixed::SCALE;
use light2d::light::{derive_uniform, white, PointLight, Rgba};
use light2d::transform::Transform2d;
use light2d::RenderError;

fn identity_at(tx: i64, ty: i64, tz: i64) -> Transform2d {
    Transform2d { m00: SCALE, m01: 0, m10: 0, m11: SCALE, tx, ty, tz }
}

fn cone_light(inner_angle: i64, outer_angle: i64, inner_radius: i64) -> PointLight {
    PointLight {
        color: white(),
        falloff_intensity: SCALE,
        inner_angle,
        outer_angle,
        inner_radius,
    }
}

#[test]
fn inner_radius_mult_half_is_two() {
    let light = cone_light(0, SCALE / 2, SCALE / 2);
    let u = derive_uniform(&light, &identity_at(0, 0, 0));
    assert_eq!(u.inner_radius_mult, 2 * SCALE);
}

#[test]
fn inner_radius_mult_zero_is_one() {
    let light = cone_light(0, SCALE / 2, 0);
    let u = derive_uniform(&light, &identity_at(0, 0, 0));
    assert_eq!(u.inner_radius_mult, SCALE);
}

#[test]
fn inner_angle_mult_zero_to_half_is_two() {
    let light = cone_light(0, SCALE / 2, 0);
    let u = derive_uniform(&light, &identity_at(0, 0, 0));
    assert_eq!(u.inner_angle_mult, 2 * SCALE);
}

#[test]
fn inner_angle_mult_inverted_range_is_negative() {
    let light = cone_light(SCALE / 2, 0, 0);
    let u = derive_uniform(&light, &identity_at(0, 0, 0));
    assert_eq!(u.inner_angle_mult, -2 * SCALE);
}

#[test]
fn full_angle_flag_tests_inner_angle_only() {
    // The flag is derived from the inner angle alone: a light whose inner
    // angle is the full turn is flagged, one whose outer angle is the full
    // turn is not.
    let inner_full = cone_light(SCALE, SCALE / 2, 0);
    let u = derive_uniform(&inner_full, &identity_at(0, 0, 0));
    assert!(u.is_full_angle);

    let outer_full = cone_light(SCALE / 2, SCALE, 0);
    let u2 = derive_uniform(&outer_full, &identity_at(0, 0, 0));
    assert!(!u2.is_full_angle);
}

#[test]
fn uniform_copies_position_color_intensity() {
    let light = PointLight {
        color: Rgba { r: SCALE, g: 0, b: 0, a: SCALE / 2 },
        falloff_intensity: SCALE / 4,
        inner_angle: 0,
        outer_angle: SCALE,
        inner_radius: 0,
    };
    let u = derive_uniform(&light, &identity_at(7, -8, 9));
    assert_eq!(u.position.x, 7);
    assert_eq!(u.position.y, -8);
    assert_eq!(u.position.z, 9);
    assert_eq!(u.color, Rgba { r: SCALE, g: 0, b: 0, a: SCALE / 2 });
    assert_eq!(u.falloff_intensity, SCALE / 4);
    assert_eq!(u.outer_angle, SCALE);
}

#[test]
fn validate_accepts_safe_light() {
    assert_eq!(cone_light(0, SCALE / 2, SCALE / 2).validate(), Ok(()));
}

#[test]
fn validate_rejects_full_inner_radius() {
    let light = cone_light(0, SCALE / 2, SCALE);
    assert_eq!(light.validate(), Err(RenderError::InnerRadiusFull));
}

#[test]
fn validate_rejects_empty_angle_range() {
    let light = cone_light(SCALE / 2, SCALE / 2, 0);
    assert_eq!(light.validate(), Err(RenderError::EmptyAngleRange));
}

#[test]
fn validate_rejects_out_of_range_params() {
    let light = cone_light(2 * SCALE, SCALE / 2, 0);
    assert_eq!(light.validate(), Err(RenderError::ParamOutOfRange));
    let light2 = cone_light(0, -1, 0);
    assert_eq!(light2.validate(), Err(RenderError::ParamOutOfRange));
    let light3 = cone_light(0, SCALE / 2, -1);
    assert_eq!(light3.validate(), Err(RenderError::ParamOutOfRange));
}

#[test]
fn default_light_is_all_ones_and_rejected() {
    let d = PointLight::default();
    assert_eq!(d.color, white());
    assert_eq!(d.falloff_intensity, SCALE);
    assert_eq!(d.inner_angle, SCALE);
    assert_eq!(d.outer_angle, SCALE);
    assert_eq!(d.inner_radius, SCALE);
    // The authoring default sits outside the safe domain: the inner radius
    // is full, which validation names first.
    assert_eq!(d.validate(), Err(RenderError::InnerRadiusFull));
}
