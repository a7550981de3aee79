use light2d::batch::{batch_lights, ItemBinding};
use light2d::sequence::sequence_items;
use light2d::extract::{extract_lights, ExtractedLight, LightInstance};
use light2d::fixed::{fp_mul, SCALE};
use light2d::light::{derive_uniform, white, PointLight, Rgba};
use light2d::transform::Transform2d;

fn scaled_at(scale_units: i64, tx: i64, ty: i64, tz: i64) -> Transform2d {
    Transform2d {
        m00: scale_units * SCALE,
        m01: 0,
        m10: 0,
        m11: scale_units * SCALE,
        tx: tx * SCALE,
        ty: ty * SCALE,
        tz: tz * SCALE,
    }
}

fn plain_light(color: Rgba) -> PointLight {
    PointLight {
        color,
        falloff_intensity: SCALE,
        inner_angle: 0,
        outer_angle: SCALE,
        inner_radius: 0,
    }
}

fn instance(entity: u64, visible: bool, color: Rgba, t: Transform2d) -> LightInstance {
    LightInstance { entity, visible, light: plain_light(color), transform: t }
}

#[test]
fn fixed_point_products_truncate_toward_zero() {
    assert_eq!(fp_mul(SCALE / 2, 3), 1);
    assert_eq!(fp_mul(-(SCALE / 2), 3), -1);
    assert_eq!(fp_mul(2 * SCALE, 5 * SCALE), 10 * SCALE);
}

#[test]
fn six_vertices_per_visible_light() {
    let t = scaled_at(1, 0, 0, 0);
    let scene = vec![
        instance(1, true, white(), t),
        instance(2, true, white(), t),
        instance(3, true, white(), t),
    ];
    let extracted = extract_lights(&scene);
    let (vertices, items) = batch_lights(&extracted, 0, 0);
    assert_eq!(vertices.len(), 18);
    assert_eq!(items.len(), 3);
}

#[test]
fn invisible_lights_contribute_no_vertices() {
    let t = scaled_at(1, 0, 0, 0);
    let scene = vec![
        instance(1, true, white(), t),
        instance(2, false, white(), t),
        instance(3, false, white(), t),
    ];
    let extracted = extract_lights(&scene);
    assert_eq!(extracted.len(), 1);
    assert_eq!(extracted[0].entity, 1);
    let (vertices, items) = batch_lights(&extracted, 0, 0);
    assert_eq!(vertices.len(), 6);
    assert_eq!(items.len(), 1);
}

#[test]
fn all_invisible_yields_empty_batch() {
    let t = scaled_at(1, 0, 0, 0);
    let scene = vec![instance(1, false, white(), t)];
    let extracted = extract_lights(&scene);
    let (vertices, items) = batch_lights(&extracted, 0, 0);
    assert_eq!(vertices.len(), 0);
    assert_eq!(items.len(), 0);
}

#[test]
fn quad_corners_transform_by_world_scale() {
    // A light at the origin scaled to 200 x 200 spans 100 world units from
    // its center to each quad edge.
    let light = ExtractedLight {
        entity: 1,
        uniform: derive_uniform(&plain_light(white()), &scaled_at(200, 0, 0, 0)),
        transform: scaled_at(200, 0, 0, 0),
    };
    let (vertices, _) = batch_lights(&vec![light], 0, 0);
    // Triangulation order 0,2,3,0,1,2 over corners at (+-0.5, +-0.5).
    let hundred = 100 * SCALE;
    assert_eq!((vertices[0].position.x, vertices[0].position.y), (-hundred, -hundred));
    assert_eq!((vertices[1].position.x, vertices[1].position.y), (hundred, hundred));
    assert_eq!((vertices[2].position.x, vertices[2].position.y), (-hundred, hundred));
    assert_eq!((vertices[3].position.x, vertices[3].position.y), (-hundred, -hundred));
    assert_eq!((vertices[4].position.x, vertices[4].position.y), (hundred, -hundred));
    assert_eq!((vertices[5].position.x, vertices[5].position.y), (hundred, hundred));
    // The fixed UV mapping follows the same corner order.
    assert_eq!((vertices[0].u, vertices[0].v), (0, SCALE));
    assert_eq!((vertices[1].u, vertices[1].v), (SCALE, 0));
    assert_eq!((vertices[2].u, vertices[2].v), (0, 0));
    assert_eq!((vertices[3].u, vertices[3].v), (0, SCALE));
    assert_eq!((vertices[4].u, vertices[4].v), (SCALE, SCALE));
    assert_eq!((vertices[5].u, vertices[5].v), (SCALE, 0));
}

#[test]
fn batch_items_record_ranges_keys_and_offsets() {
    let t = scaled_at(1, 0, 0, 3);
    let scene = vec![instance(7, true, white(), t), instance(8, true, white(), t)];
    let extracted = extract_lights(&scene);
    let (_, items) = batch_lights(&extracted, 11, 22);
    assert_eq!(items[0].entity, 7);
    assert_eq!(items[0].pipeline, 11);
    assert_eq!(items[0].draw_function, 22);
    assert_eq!((items[0].range.start, items[0].range.end), (0, 6));
    assert_eq!((items[1].range.start, items[1].range.end), (6, 12));
    assert_eq!(items[0].sort_key, 3 * SCALE);
    assert_eq!(items[0].binding, ItemBinding::LightUniformOffset(0));
    assert_eq!(items[1].binding, ItemBinding::LightUniformOffset(1));
}

#[test]
fn three_light_scene_extracts_batches_in_scan_order() {
    // Three lights at (0,0), (-200,-200) and (200,-200), colored yellow,
    // blue and red, each scaled to 200 x 200, all at depth zero.
    let yellow = Rgba { r: SCALE, g: SCALE, b: 0, a: SCALE };
    let blue = Rgba { r: 0, g: 0, b: SCALE, a: SCALE };
    let red = Rgba { r: SCALE, g: 0, b: 0, a: SCALE };
    let scene = vec![
        instance(1, true, yellow, scaled_at(200, 0, 0, 0)),
        instance(2, true, blue, scaled_at(200, -200, -200, 0)),
        instance(3, true, red, scaled_at(200, 200, -200, 0)),
    ];
    let extracted = extract_lights(&scene);
    assert_eq!(extracted.len(), 3);
    assert_eq!(extracted[0].uniform.color, yellow);
    assert_eq!(extracted[1].uniform.color, blue);
    assert_eq!(extracted[2].uniform.color, red);
    assert_eq!(extracted[1].uniform.position.x, -200 * SCALE);
    assert_eq!(extracted[2].uniform.position.x, 200 * SCALE);
    let (vertices, items) = batch_lights(&extracted, 0, 0);
    assert_eq!(vertices.len(), 18);
    assert_eq!(items.len(), 3);
    assert!(items.iter().all(|i| i.sort_key == 0));
    let order: Vec<u64> = items.iter().map(|i| i.entity).collect();
    assert_eq!(order, vec![1, 2, 3]);
    // With all depths equal, ordering keeps the original scan order as the
    // tie-break.
    let ordered = sequence_items(&items);
    let tie_broken: Vec<u64> = ordered.iter().map(|i| i.entity).collect();
    assert_eq!(tie_broken, vec![1, 2, 3]);
}
