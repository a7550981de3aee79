//! Per-frame extraction from the scene snapshot.
//!
//! The extract stage reads an immutable snapshot of the scene — lights,
//! shadow casters and cameras with their overlay targets — and copies what
//! the render side needs into frame-scoped records. Invisible entities
//! produce no record; an entity that disappeared simply stops appearing, no
//! removal event is needed. Output order is the scan order of the snapshot
//! and carries no stability promise across frames.

use vstd::prelude::*;

use crate::light::LightUniform;
use crate::light::PointLight;
use crate::light::uniform_of;
use crate::transform::Transform2d;
use crate::transform::Vec2Fp;

verus! {

/// One point-light entity of the scene snapshot.
#[derive(Clone, Copy, Debug, PartialEq, Eq, Structural)]
pub struct LightInstance {
    pub entity: u64,
    pub visible: bool,
    pub light: PointLight,
    pub transform: Transform2d,
}

/// The render-side record of one visible light.
#[derive(Clone, Copy, Debug, PartialEq, Eq, Structural)]
pub struct ExtractedLight {
    pub entity: u64,
    pub uniform: LightUniform,
    pub transform: Transform2d,
}

/// The record a visible light extracts to.
pub open spec fn light_record_of(
    entity: u64,
    light: PointLight,
    transform: Transform2d,
) -> ExtractedLight {
    ExtractedLight { entity, uniform: uniform_of(light, transform), transform }
}

/// The records that a scene's light list extracts to: one per visible
/// light, in scan order.
pub open spec fn extracted_lights_of(s: Seq<LightInstance>) -> Seq<ExtractedLight>
    decreases s.len(),
{
    if s.len() == 0 {
        Seq::empty()
    } else if s.last().visible {
        extracted_lights_of(s.drop_last()).push(
            light_record_of(s.last().entity, s.last().light, s.last().transform),
        )
    } else {
        extracted_lights_of(s.drop_last())
    }
}

/// How many entries of the light list are visible.
pub open spec fn visible_count(s: Seq<LightInstance>) -> nat
    decreases s.len(),
{
    if s.len() == 0 {
        0
    } else {
        visible_count(s.drop_last()) + if s.last().visible {
            1nat
        } else {
            0nat
        }
    }
}

/// Extraction produces exactly one record per visible light.
pub proof fn lemma_extracted_count(s: Seq<LightInstance>)
    ensures
        extracted_lights_of(s).len() == visible_count(s),
    decreases s.len(),
{
    if s.len() > 0 {
        lemma_extracted_count(s.drop_last());
    }
}

/// Copies each visible light of the snapshot into a render record with its
/// derived uniform, in scan order; invisible lights produce nothing.
pub fn extract_lights(scene: &Vec<LightInstance>) -> (out: Vec<ExtractedLight>)
    requires
        forall|i: int|
            0 <= i < scene@.len() && scene@[i].visible ==> (#[trigger] scene@[i]).light.safe(),
    ensures
        out@ == extracted_lights_of(scene@),
        out@.len() == visible_count(scene@),
{
    let mut out: Vec<ExtractedLight> = Vec::new();
    let n = scene.len();
    for i in 0..n
        invariant
            n == scene@.len(),
            forall|k: int|
                0 <= k < scene@.len() && scene@[k].visible ==> (#[trigger] scene@[k]).light.safe(),
            out@ == extracted_lights_of(scene@.subrange(0, i as int)),
    {
        let inst = &scene[i];
        if inst.visible {
            let uniform = crate::light::derive_uniform(&inst.light, &inst.transform);
            out.push(ExtractedLight { entity: inst.entity, uniform, transform: inst.transform });
        }
        proof {
            let sub = scene@.subrange(0, i + 1);
            assert(sub.drop_last() =~= scene@.subrange(0, i as int));
            assert(sub.last() == scene@[i as int]);
        }
    }
    proof {
        assert(scene@.subrange(0, n as int) =~= scene@);
        lemma_extracted_count(scene@);
    }
    out
}

/// One shadow-caster entity of the scene snapshot: a closed flag and an
/// ordered list of points in local space. The shading pipeline for casters
/// is future work; only extraction is live.
pub struct ShadowInstance {
    pub entity: u64,
    pub visible: bool,
    pub closed: bool,
    pub points: Vec<Vec2Fp>,
    pub transform: Transform2d,
}

/// The render-side record of one visible shadow caster.
pub struct ExtractedShadow {
    pub entity: u64,
    pub closed: bool,
    pub points: Vec<Vec2Fp>,
    pub transform: Transform2d,
}

/// The value of a shadow record, with the point list as a sequence.
pub open spec fn shadow_model(
    entity: u64,
    closed: bool,
    points: Seq<Vec2Fp>,
    transform: Transform2d,
) -> (u64, bool, Seq<Vec2Fp>, Transform2d) {
    (entity, closed, points, transform)
}

/// The records that a scene's caster list extracts to, as values.
pub open spec fn extracted_shadows_of(s: Seq<ShadowInstance>) -> Seq<
    (u64, bool, Seq<Vec2Fp>, Transform2d),
>
    decreases s.len(),
{
    if s.len() == 0 {
        Seq::empty()
    } else if s.last().visible {
        extracted_shadows_of(s.drop_last()).push(
            shadow_model(s.last().entity, s.last().closed, s.last().points@, s.last().transform),
        )
    } else {
        extracted_shadows_of(s.drop_last())
    }
}

/// Copies a point list.
fn copy_points(src: &Vec<Vec2Fp>) -> (out: Vec<Vec2Fp>)
    ensures
        out@ == src@,
{
    let mut out: Vec<Vec2Fp> = Vec::new();
    let n = src.len();
    for j in 0..n
        invariant
            n == src@.len(),
            out@ == src@.subrange(0, j as int),
    {
        out.push(src[j]);
        proof {
            assert(src@.subrange(0, j + 1) =~= src@.subrange(0, j as int).push(src@[j as int]));
        }
    }
    proof {
        assert(src@.subrange(0, n as int) =~= src@);
    }
    out
}

/// Copies each visible shadow caster of the snapshot into a render record,
/// in scan order; invisible casters produce nothing.
pub fn extract_shadows(scene: &Vec<ShadowInstance>) -> (out: Vec<ExtractedShadow>)
    ensures
        out@.map_values(|e: ExtractedShadow| shadow_model(e.entity, e.closed, e.points@, e.transform))
            == extracted_shadows_of(scene@),
{
    let mut out: Vec<ExtractedShadow> = Vec::new();
    let n = scene.len();
    for i in 0..n
        invariant
            n == scene@.len(),
            out@.map_values(
                |e: ExtractedShadow| shadow_model(e.entity, e.closed, e.points@, e.transform),
            ) == extracted_shadows_of(scene@.subrange(0, i as int)),
    {
        let inst = &scene[i];
        if inst.visible {
            let points = copy_points(&inst.points);
            out.push(
                ExtractedShadow {
                    entity: inst.entity,
                    closed: inst.closed,
                    points,
                    transform: inst.transform,
                },
            );
        }
        proof {
            let sub = scene@.subrange(0, i + 1);
            assert(sub.drop_last() =~= scene@.subrange(0, i as int));
            assert(sub.last() == scene@[i as int]);
            assert(out@.map_values(
                |e: ExtractedShadow| shadow_model(e.entity, e.closed, e.points@, e.transform),
            ) =~= extracted_shadows_of(scene@.subrange(0, i + 1)));
        }
    }
    proof {
        assert(scene@.subrange(0, n as int) =~= scene@);
    }
    out
}

/// A physical viewport rectangle in pixels.
#[derive(Clone, Copy, Debug, PartialEq, Eq, Structural)]
pub struct Viewport {
    pub origin_x: u32,
    pub origin_y: u32,
    pub width: u32,
    pub height: u32,
}

/// An overlay target authored as a child of a camera: the child entity,
/// an offscreen color image and its pixel size.
#[derive(Clone, Copy, Debug, PartialEq, Eq, Structural)]
pub struct OverlayTarget {
    pub entity: u64,
    pub image: u64,
    pub width: u32,
    pub height: u32,
}

/// One 2D camera of the scene snapshot, with the overlay targets attached
/// to it resolved at scene-build time.
pub struct CameraInstance {
    pub entity: u64,
    pub is_active: bool,
    pub priority: i64,
    /// The physical viewport, when the window has one this frame.
    pub viewport: Option<Viewport>,
    /// The physical size of the camera's render target, when resolvable.
    pub target_size: Option<(u32, u32)>,
    pub transform: Transform2d,
    pub hdr: bool,
    pub overlays: Vec<OverlayTarget>,
}

/// A secondary camera view synthesized for one overlay target: it renders
/// into the target's offscreen image, inherits the primary camera's
/// transform and projection, runs at one lower priority, and clears the
/// image to transparent before drawing.
#[derive(Clone, Copy, Debug, PartialEq, Eq, Structural)]
pub struct OverlayView {
    /// The overlay child entity the view is spawned for.
    pub entity: u64,
    /// The primary camera the overlay is attached to.
    pub parent: u64,
    /// The offscreen image the view renders into.
    pub image: u64,
    /// The pixel size of the offscreen image.
    pub target_width: u32,
    pub target_height: u32,
    /// The primary camera's viewport, copied.
    pub viewport: Viewport,
    /// One lower than the primary camera, so the offscreen pass runs first.
    pub priority: i64,
    /// Inherited from the primary camera.
    pub transform: Transform2d,
    pub hdr: bool,
    /// The image is cleared to transparent black each frame.
    pub clear_transparent: bool,
}

impl CameraInstance {
    /// Whether the camera contributes overlay views this frame: it is
    /// active, its viewport is known, and its target has nonzero area.
    pub open spec fn emits_views(self) -> bool {
        &&& self.is_active
        &&& self.viewport is Some
        &&& self.target_size matches Some((w, h)) && w != 0 && h != 0
    }
}

/// The view synthesized for one overlay target under one camera.
pub open spec fn view_of(c: CameraInstance, o: OverlayTarget) -> OverlayView
    recommends
        c.emits_views(),
{
    OverlayView {
        entity: o.entity,
        parent: c.entity,
        image: o.image,
        target_width: o.width,
        target_height: o.height,
        viewport: c.viewport->0,
        priority: (c.priority - 1) as i64,
        transform: c.transform,
        hdr: c.hdr,
        clear_transparent: true,
    }
}

/// The views one camera contributes: one per attached overlay target, in
/// order, or none at all when the camera cannot render this frame.
pub open spec fn views_of_camera(c: CameraInstance) -> Seq<OverlayView> {
    if c.emits_views() {
        Seq::new(c.overlays@.len(), |j: int| view_of(c, c.overlays@[j]))
    } else {
        Seq::empty()
    }
}

/// The overlay views a camera list extracts to, camera by camera.
pub open spec fn overlay_views_of(s: Seq<CameraInstance>) -> Seq<OverlayView>
    decreases s.len(),
{
    if s.len() == 0 {
        Seq::empty()
    } else {
        overlay_views_of(s.drop_last()) + views_of_camera(s.last())
    }
}

/// Synthesizes the secondary camera views for this frame's overlay targets:
/// for each active camera with a known viewport and a target of nonzero
/// area, one view per attached overlay, rendering into the overlay's image
/// at one lower priority with the camera's transform.
pub fn extract_cameras(scene: &Vec<CameraInstance>) -> (out: Vec<OverlayView>)
    requires
        forall|i: int|
            0 <= i < scene@.len() ==> (#[trigger] scene@[i]).priority > i64::MIN,
    ensures
        out@ == overlay_views_of(scene@),
{
    let mut out: Vec<OverlayView> = Vec::new();
    let n = scene.len();
    for i in 0..n
        invariant
            n == scene@.len(),
            forall|k: int|
                0 <= k < scene@.len() ==> (#[trigger] scene@[k]).priority > i64::MIN,
            out@ == overlay_views_of(scene@.subrange(0, i as int)),
    {
        let cam = &scene[i];
        let emits: bool = cam.is_active && cam.viewport.is_some() && match cam.target_size {
            Some((w, h)) => w != 0 && h != 0,
            None => false,
        };
        if emits {
            let viewport = match cam.viewport {
                Some(v) => v,
                None => Viewport { origin_x: 0, origin_y: 0, width: 0, height: 0 },
            };
            let m = cam.overlays.len();
            for j in 0..m
                invariant
                    m == cam.overlays@.len(),
                    cam == &scene@[i as int],
                    cam.emits_views(),
                    cam.priority > i64::MIN,
                    viewport == cam.viewport->0,
                    out@ == overlay_views_of(scene@.subrange(0, i as int)) + Seq::new(
                        j as nat,
                        |k: int| view_of(*cam, cam.overlays@[k]),
                    ),
            {
                let o = cam.overlays[j];
                out.push(
                    OverlayView {
                        entity: o.entity,
                        parent: cam.entity,
                        image: o.image,
                        target_width: o.width,
                        target_height: o.height,
                        viewport,
                        priority: cam.priority - 1,
                        transform: cam.transform,
                        hdr: cam.hdr,
                        clear_transparent: true,
                    },
                );
                proof {
                    assert(overlay_views_of(scene@.subrange(0, i as int)) + Seq::new(
                        (j + 1) as nat,
                        |k: int| view_of(*cam, cam.overlays@[k]),
                    ) =~= (overlay_views_of(scene@.subrange(0, i as int)) + Seq::new(
                        j as nat,
                        |k: int| view_of(*cam, cam.overlays@[k]),
                    )).push(view_of(*cam, cam.overlays@[j as int])));
                }
            }
            proof {
                assert(Seq::new(m as nat, |k: int| view_of(*cam, cam.overlays@[k]))
                    =~= views_of_camera(scene@[i as int]));
            }
        }
        proof {
            let sub = scene@.subrange(0, i + 1);
            assert(sub.drop_last() =~= scene@.subrange(0, i as int));
            assert(sub.last() == scene@[i as int]);
            if !scene@[i as int].emits_views() {
                assert(views_of_camera(scene@[i as int]) =~= Seq::<OverlayView>::empty());
                assert(out@ =~= overlay_views_of(sub));
            }
        }
    }
    proof {
        assert(scene@.subrange(0, n as int) =~= scene@);
    }
    out
}

} // verus!
