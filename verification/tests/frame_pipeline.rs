use light2d::batch::{ItemBinding, OVERLAY_SORT_KEY};
use light2d::bind::{LightMeta, OverlayImageBindGroups, OverlayMeta};
use light2d::extract::{
    extract_cameras, extract_lights, extract_shadows, CameraInstance, LightInstance,
    OverlayTarget, ShadowInstance, Viewport,
};
use light2d::fixed::SCALE;
use light2d::light::{white, PointLight};
use light2d::overlay::{step_overlay, OverlayAction, OverlayEvent, OverlayPhase};
use light2d::pipeline::{specialize, LayoutEntry, PipelineCache, PipelineKind, VertexFormat};
use light2d::queue::{queue_light_frame, queue_overlay_frame};
use light2d::sequence::sequence_items;
use light2d::transform::{Transform2d, Vec2Fp};
use light2d::RenderError;

fn identity() -> Transform2d {
    Transform2d { m00: SCALE, m01: 0, m10: 0, m11: SCALE, tx: 0, ty: 0, tz: 0 }
}

fn safe_light() -> PointLight {
    PointLight {
        color: white(),
        falloff_intensity: SCALE,
        inner_angle: 0,
        outer_angle: SCALE,
        inner_radius: 0,
    }
}

fn camera(entity: u64, active: bool, overlays: Vec<OverlayTarget>) -> CameraInstance {
    CameraInstance {
        entity,
        is_active: active,
        priority: 0,
        viewport: Some(Viewport { origin_x: 0, origin_y: 0, width: 800, height: 600 }),
        target_size: Some((800, 600)),
        transform: identity(),
        hdr: false,
        overlays,
    }
}

fn target(image: u64) -> OverlayTarget {
    OverlayTarget { entity: 1000 + image, image, width: 512, height: 512 }
}

#[test]
fn inactive_camera_yields_no_overlay_views() {
    let views = extract_cameras(&vec![camera(1, false, vec![target(42)])]);
    assert!(views.is_empty());
}

#[test]
fn zero_target_size_yields_no_overlay_views() {
    let mut cam = camera(1, true, vec![target(42)]);
    cam.target_size = Some((0, 600));
    assert!(extract_cameras(&vec![cam]).is_empty());
    let mut cam2 = camera(1, true, vec![target(42)]);
    cam2.target_size = None;
    assert!(extract_cameras(&vec![cam2]).is_empty());
    let mut cam3 = camera(1, true, vec![target(42)]);
    cam3.viewport = None;
    assert!(extract_cameras(&vec![cam3]).is_empty());
}

#[test]
fn overlay_view_inherits_camera_at_lower_priority() {
    let mut cam = camera(9, true, vec![target(42)]);
    cam.priority = 5;
    let views = extract_cameras(&vec![cam]);
    assert_eq!(views.len(), 1);
    let v = &views[0];
    assert_eq!(v.entity, 1042);
    assert_eq!(v.parent, 9);
    assert_eq!(v.image, 42);
    assert_eq!(v.priority, 4);
    assert_eq!((v.target_width, v.target_height), (512, 512));
    assert_eq!(v.transform, identity());
    assert!(v.clear_transparent);
}

#[test]
fn shadow_extraction_filters_invisible_casters() {
    let points = vec![Vec2Fp { x: 0, y: 0 }, Vec2Fp { x: SCALE, y: 0 }];
    let scene = vec![
        ShadowInstance {
            entity: 1,
            visible: true,
            closed: true,
            points: points.clone(),
            transform: identity(),
        },
        ShadowInstance {
            entity: 2,
            visible: false,
            closed: false,
            points: Vec::new(),
            transform: identity(),
        },
    ];
    let out = extract_shadows(&scene);
    assert_eq!(out.len(), 1);
    assert_eq!(out[0].entity, 1);
    assert!(out[0].closed);
    assert_eq!(out[0].points, points);
}

#[test]
fn pipeline_cache_returns_identical_handle_without_rebuild() {
    let mut cache = PipelineCache::new();
    let a = cache.get_or_build(PipelineKind::Lighting, 0).unwrap();
    let b = cache.get_or_build(PipelineKind::Lighting, 0).unwrap();
    assert_eq!(a, b);
    assert_eq!(cache.built_count(), 1);
    let c = cache.get_or_build(PipelineKind::Overlay, 0).unwrap();
    assert_ne!(a, c);
    assert_eq!(cache.built_count(), 2);
}

#[test]
fn unregistered_pipeline_key_fails_hard() {
    let mut cache = PipelineCache::new();
    assert_eq!(
        cache.get_or_build(PipelineKind::Lighting, 7),
        Err(RenderError::UnregisteredPipeline)
    );
}

#[test]
fn lighting_descriptor_has_four_binding_sets() {
    let d = specialize(PipelineKind::Lighting, 0);
    assert_eq!(d.layouts.len(), 4);
    assert_eq!(d.layouts[0].entries, vec![LayoutEntry::UniformBuffer { dynamic: true }]);
    assert_eq!(d.layouts[1].entries, vec![LayoutEntry::UniformBuffer { dynamic: true }]);
    assert_eq!(d.layouts[2].entries, vec![LayoutEntry::Texture, LayoutEntry::Sampler]);
    assert_eq!(d.layouts[3].entries, vec![LayoutEntry::Texture, LayoutEntry::Sampler]);
    assert_eq!(
        d.vertex_formats,
        vec![VertexFormat::Float32x3, VertexFormat::Float32x2]
    );
    assert_eq!(d.sample_count, 4);
    assert!(d.alpha_blend);
}

#[test]
fn overlay_descriptor_has_two_binding_sets() {
    let d = specialize(PipelineKind::Overlay, 0);
    assert_eq!(d.layouts.len(), 2);
    assert_eq!(d.layouts[0].entries, vec![LayoutEntry::UniformBuffer { dynamic: true }]);
    assert_eq!(d.layouts[1].entries, vec![LayoutEntry::Texture, LayoutEntry::Sampler]);
    assert_eq!(d.vertex_formats, vec![VertexFormat::Float32x2]);
}

#[test]
fn light_frame_without_view_uniforms_draws_nothing() {
    let mut pipelines = PipelineCache::new();
    let mut meta = LightMeta::default();
    let items =
        queue_light_frame(None, Some(1), Some(2), Some(3), &Vec::new(), &mut pipelines, &mut meta, 0)
            .unwrap();
    assert!(items.is_empty());
    assert!(meta.view_bind_group.is_none());
}

#[test]
fn light_frame_without_lookup_textures_draws_nothing() {
    let mut pipelines = PipelineCache::new();
    let mut meta = LightMeta::default();
    let items =
        queue_light_frame(Some(1), Some(2), None, Some(3), &Vec::new(), &mut pipelines, &mut meta, 0)
            .unwrap();
    assert!(items.is_empty());
}

#[test]
fn light_frame_builds_bind_sets_and_items() {
    let scene = vec![LightInstance {
        entity: 1,
        visible: true,
        light: safe_light(),
        transform: identity(),
    }];
    let lights = extract_lights(&scene);
    let mut pipelines = PipelineCache::new();
    let mut meta = LightMeta::default();
    let items = queue_light_frame(
        Some(100),
        Some(200),
        Some(300),
        Some(400),
        &lights,
        &mut pipelines,
        &mut meta,
        7,
    )
    .unwrap();
    assert_eq!(meta.view_bind_group, Some(100));
    assert_eq!(meta.light_bind_group, Some(200));
    assert_eq!(meta.vertices.len(), 6);
    assert_eq!(items.len(), 1);
    assert_eq!(items[0].draw_function, 7);
    assert_eq!(pipelines.built_count(), 1);
}

#[test]
fn overlay_frame_without_view_uniforms_is_untouched() {
    let mut pipelines = PipelineCache::new();
    let mut cache = OverlayImageBindGroups::new();
    let mut meta = OverlayMeta::default();
    let items = queue_overlay_frame(
        None,
        1,
        &vec![target(42)],
        &vec![42],
        &mut pipelines,
        &mut cache,
        &mut meta,
        0,
    )
    .unwrap();
    assert!(items.is_empty());
    assert_eq!(cache.len(), 0);
    assert!(meta.view_bind_group.is_none());
}

#[test]
fn overlay_frame_skips_unresolved_images() {
    let mut pipelines = PipelineCache::new();
    let mut cache = OverlayImageBindGroups::new();
    let mut meta = OverlayMeta::default();
    let items = queue_overlay_frame(
        Some(1),
        1,
        &vec![target(42)],
        &Vec::new(),
        &mut pipelines,
        &mut cache,
        &mut meta,
        0,
    )
    .unwrap();
    assert!(items.is_empty());
    assert_eq!(meta.vertices.len(), 0);
    assert_eq!(cache.len(), 0);
}

#[test]
fn overlay_frame_queues_one_late_quad_per_resolved_image() {
    let mut pipelines = PipelineCache::new();
    let mut cache = OverlayImageBindGroups::new();
    let mut meta = OverlayMeta::default();
    let items = queue_overlay_frame(
        Some(1),
        1,
        &vec![target(42)],
        &vec![42],
        &mut pipelines,
        &mut cache,
        &mut meta,
        9,
    )
    .unwrap();
    assert_eq!(items.len(), 1);
    assert_eq!(meta.vertices.len(), 6);
    assert_eq!(meta.view_bind_group, Some(1));
    assert_eq!(items[0].sort_key, OVERLAY_SORT_KEY);
    assert_eq!(items[0].binding, ItemBinding::OverlayImage(42));
    assert_eq!((items[0].range.start, items[0].range.end), (0, 6));
    assert_eq!(cache.len(), 1);
}

#[test]
fn shared_overlay_image_reuses_one_bind_set() {
    let mut pipelines = PipelineCache::new();
    let mut cache = OverlayImageBindGroups::new();
    let mut meta = OverlayMeta::default();
    // Two overlay targets share one source image; a third uses its own.
    let items = queue_overlay_frame(
        Some(1),
        1,
        &vec![target(42), target(42), target(43)],
        &vec![42, 43],
        &mut pipelines,
        &mut cache,
        &mut meta,
        0,
    )
    .unwrap();
    assert_eq!(items.len(), 3);
    assert_eq!(cache.len(), 2);
}

#[test]
fn bind_set_cache_insert_or_get() {
    let mut cache = OverlayImageBindGroups::new();
    let a1 = cache.get_or_insert(42);
    let a2 = cache.get_or_insert(42);
    assert_eq!(a1, a2);
    assert_eq!(cache.len(), 1);
    let b = cache.get_or_insert(43);
    assert_ne!(a1, b);
    assert_eq!(cache.len(), 2);
    assert_eq!(cache.get(42), Some(a1));
    assert_eq!(cache.get(44), None);
}

#[test]
fn eviction_drops_unreferenced_images_only() {
    let mut cache = OverlayImageBindGroups::new();
    let a = cache.get_or_insert(42);
    let b = cache.get_or_insert(43);
    cache.evict_unreferenced(&vec![43]);
    assert_eq!(cache.len(), 1);
    assert_eq!(cache.get(42), None);
    assert_eq!(cache.get(43), Some(b));
    // A handle is never reused, even after its entry was evicted.
    let c = cache.get_or_insert(44);
    assert_ne!(c, a);
    assert_ne!(c, b);
}

#[test]
fn overlay_quad_sorts_after_all_lights() {
    // One overlay target attached to the primary camera: the composite item
    // carries a key above every light's depth and therefore draws last.
    let scene = vec![
        LightInstance { entity: 1, visible: true, light: safe_light(), transform: identity() },
        LightInstance { entity: 2, visible: true, light: safe_light(), transform: identity() },
    ];
    let lights = extract_lights(&scene);
    let mut pipelines = PipelineCache::new();
    let mut light_meta = LightMeta::default();
    let mut light_items = queue_light_frame(
        Some(1),
        Some(2),
        Some(3),
        Some(4),
        &lights,
        &mut pipelines,
        &mut light_meta,
        0,
    )
    .unwrap();

    let cameras = vec![camera(9, true, vec![target(42)])];
    let views = extract_cameras(&cameras);
    assert_eq!(views.len(), 1);
    let mut cache = OverlayImageBindGroups::new();
    let mut overlay_meta = OverlayMeta::default();
    let overlay_items = queue_overlay_frame(
        Some(1),
        views.len(),
        &vec![target(42)],
        &vec![42],
        &mut pipelines,
        &mut cache,
        &mut overlay_meta,
        0,
    )
    .unwrap();
    assert_eq!(overlay_items.len(), 1);
    for light_item in &light_items {
        assert!(light_item.sort_key < overlay_items[0].sort_key);
    }

    light_items.extend(overlay_items);
    let ordered = sequence_items(&light_items);
    assert_eq!(ordered.len(), 3);
    assert_eq!(ordered[2].binding, ItemBinding::OverlayImage(42));
}

#[test]
fn compositor_walks_the_frame_cycle() {
    let (p1, a1) = step_overlay(OverlayPhase::Idle, OverlayEvent::TickExtract { found: true });
    assert_eq!((p1, a1), (OverlayPhase::Extracted, OverlayAction::SynthesizeView));
    let (p2, a2) = step_overlay(p1, OverlayEvent::TickRenderSecondary);
    assert_eq!((p2, a2), (OverlayPhase::Rendered, OverlayAction::RenderOffscreen));
    let (p3, a3) = step_overlay(p2, OverlayEvent::TickComposite);
    assert_eq!((p3, a3), (OverlayPhase::Composited, OverlayAction::CompositeQuad));
    // The next frame's extraction restarts the cycle.
    let (p4, a4) = step_overlay(p3, OverlayEvent::TickExtract { found: true });
    assert_eq!((p4, a4), (OverlayPhase::Extracted, OverlayAction::SynthesizeView));
    // A frame without the overlay child falls back to idle.
    let (p5, _) = step_overlay(p4, OverlayEvent::TickExtract { found: false });
    assert_eq!(p5, OverlayPhase::Idle);
}

#[test]
fn compositor_skips_out_of_order_ticks() {
    let (p, a) = step_overlay(OverlayPhase::Idle, OverlayEvent::TickRenderSecondary);
    assert_eq!((p, a), (OverlayPhase::Idle, OverlayAction::Nothing));
    let (p2, a2) = step_overlay(OverlayPhase::Extracted, OverlayEvent::TickComposite);
    assert_eq!((p2, a2), (OverlayPhase::Extracted, OverlayAction::Nothing));
}
