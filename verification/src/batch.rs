//! Quad batching into the shared, frame-scoped vertex buffers.
//!
//! Each visible light becomes one unit quad — four corners at half a unit
//! from its origin — transformed by the light's world transform and emitted
//! as two counter-clockwise triangles into a shared vertex buffer. Each
//! overlay image becomes one UV-only quad. One batch item records the
//! `[start, end)` vertex range, the pipeline, and a depth sort key per quad;
//! one batch is one draw call, because every light needs its own dynamic
//! uniform offset.

use vstd::prelude::*;

use crate::extract::ExtractedLight;
use crate::fixed::SCALE;
use crate::transform::Vec3Fp;

verus! {

/// Half a unit in fixed point: the quad corners sit at `(+-0.5, +-0.5)`.
pub const HALF: i64 = 32768;

/// The sort key given to every overlay composite quad: one hundred depth
/// units, far above any scene depth in use, so compositing draws after the
/// lit scene.
pub const OVERLAY_SORT_KEY: i64 = 100 * SCALE;

/// A `[start, end)` range into the shared vertex buffer.
#[derive(Clone, Copy, Debug, PartialEq, Eq, Structural)]
pub struct VertexRange {
    pub start: usize,
    pub end: usize,
}

/// What the draw stage binds at slot 1 for one batch item.
#[derive(Clone, Copy, Debug, PartialEq, Eq, Structural)]
pub enum ItemBinding {
    /// A light batch binds the light-uniform buffer at this dynamic index.
    LightUniformOffset(u32),
    /// An overlay batch binds the material bind set cached for this image.
    OverlayImage(u64),
}

/// One frame-scoped batch: a quad's vertex range plus everything the draw
/// stage needs to issue its draw call. Rebuilt every frame, discarded after
/// the draw stage.
#[derive(Clone, Copy, Debug, PartialEq, Eq, Structural)]
pub struct BatchItem {
    pub entity: u64,
    pub pipeline: u64,
    pub draw_function: u64,
    pub range: VertexRange,
    pub sort_key: i64,
    pub binding: ItemBinding,
}

/// A vertex of a light quad: world position plus the fixed UV mapping.
#[derive(Clone, Copy, Debug, PartialEq, Eq, Structural)]
pub struct LightVertex {
    pub position: Vec3Fp,
    pub u: i64,
    pub v: i64,
}

/// A vertex of an overlay composite quad: UV only, the image is drawn as a
/// full-view quad without a world transform.
#[derive(Clone, Copy, Debug, PartialEq, Eq, Structural)]
pub struct UvVertex {
    pub u: i64,
    pub v: i64,
}

/// The fixed triangulation of a quad: two counter-clockwise triangles over
/// corners `0..4`, emitted in the order `0, 2, 3, 0, 1, 2`.
pub open spec fn quad_index_spec(k: int) -> int {
    if k == 0 {
        0
    } else if k == 1 {
        2
    } else if k == 2 {
        3
    } else if k == 3 {
        0
    } else if k == 4 {
        1
    } else {
        2
    }
}

/// The fixed UV of quad corner `c`, in fixed point.
pub open spec fn quad_uv_spec(c: int) -> (int, int) {
    if c == 0 {
        (0, SCALE as int)
    } else if c == 1 {
        (SCALE as int, SCALE as int)
    } else if c == 2 {
        (SCALE as int, 0)
    } else {
        (0, 0)
    }
}

/// The local-space position of quad corner `c`: half a unit from the
/// origin, with corner 0 at the bottom left matching its UV.
pub open spec fn quad_corner_spec(c: int) -> (int, int) {
    if c == 0 {
        (-HALF as int, -HALF as int)
    } else if c == 1 {
        (HALF as int, -HALF as int)
    } else if c == 2 {
        (HALF as int, HALF as int)
    } else {
        (-HALF as int, HALF as int)
    }
}

/// The `k`-th vertex (of six) of one light's quad: the corner picked by the
/// triangulation, transformed to world space, at the light's depth, with
/// the corner's UV.
pub open spec fn light_vertex_of(l: ExtractedLight, k: int) -> LightVertex {
    let c = quad_index_spec(k);
    let corner = quad_corner_spec(c);
    let uv = quad_uv_spec(c);
    let p = l.transform.apply_spec(corner.0, corner.1);
    LightVertex {
        position: Vec3Fp { x: p.0 as i64, y: p.1 as i64, z: l.transform.tz },
        u: uv.0 as i64,
        v: uv.1 as i64,
    }
}

/// The `k`-th vertex (of six) of an overlay quad: the triangulation's
/// corner UVs alone.
pub open spec fn overlay_vertex_of(k: int) -> UvVertex {
    let uv = quad_uv_spec(quad_index_spec(k));
    UvVertex { u: uv.0 as i64, v: uv.1 as i64 }
}

/// The batch item for the `i`-th extracted light: six vertices starting at
/// `6*i`, sorted by the light's world depth, bound to the `i`-th dynamic
/// uniform slot.
pub open spec fn light_item_of(
    s: Seq<ExtractedLight>,
    i: int,
    pipeline: u64,
    draw_function: u64,
) -> BatchItem {
    BatchItem {
        entity: s[i].entity,
        pipeline,
        draw_function,
        range: VertexRange { start: (6 * i) as usize, end: (6 * i + 6) as usize },
        sort_key: s[i].transform.tz,
        binding: ItemBinding::LightUniformOffset(i as u32),
    }
}

/// The batch items of a whole light list.
pub open spec fn light_items_of(
    s: Seq<ExtractedLight>,
    pipeline: u64,
    draw_function: u64,
) -> Seq<BatchItem> {
    Seq::new(s.len(), |i: int| light_item_of(s, i, pipeline, draw_function))
}

/// Picks the corner of the `k`-th vertex of the fixed triangulation.
fn quad_index(k: usize) -> (c: usize)
    requires
        k < 6,
    ensures
        c == quad_index_spec(k as int),
        c < 4,
{
    match k {
        0 => 0,
        1 => 2,
        2 => 3,
        3 => 0,
        4 => 1,
        _ => 2,
    }
}

/// The fixed UV of quad corner `c`.
fn quad_uv(c: usize) -> (uv: (i64, i64))
    requires
        c < 4,
    ensures
        (uv.0 as int, uv.1 as int) == quad_uv_spec(c as int),
{
    match c {
        0 => (0, SCALE),
        1 => (SCALE, SCALE),
        2 => (SCALE, 0),
        _ => (0, 0),
    }
}

/// The local-space position of quad corner `c`.
fn quad_corner(c: usize) -> (p: (i64, i64))
    requires
        c < 4,
    ensures
        (p.0 as int, p.1 as int) == quad_corner_spec(c as int),
{
    match c {
        0 => (-HALF, -HALF),
        1 => (HALF, -HALF),
        2 => (HALF, HALF),
        _ => (-HALF, HALF),
    }
}

/// Builds the `k`-th vertex of one light's quad.
fn light_vertex(l: &ExtractedLight, k: usize) -> (v: LightVertex)
    requires
        l.transform.bounded(),
        k < 6,
    ensures
        v == light_vertex_of(*l, k as int),
{
    let c = quad_index(k);
    let corner = quad_corner(c);
    let p = l.transform.apply(corner.0, corner.1);
    let uv = quad_uv(c);
    LightVertex {
        position: Vec3Fp { x: p.0, y: p.1, z: l.transform.tz },
        u: uv.0,
        v: uv.1,
    }
}

/// Appends one overlay quad — six UV-only vertices in triangulation order —
/// to the shared overlay vertex buffer.
pub fn push_overlay_quad(vertices: &mut Vec<UvVertex>)
    requires
        old(vertices)@.len() + 6 <= usize::MAX,
    ensures
        final(vertices)@.len() == old(vertices)@.len() + 6,
        forall|k: int|
            0 <= k < 6 ==> final(vertices)@[old(vertices)@.len() + k] == overlay_vertex_of(k),
        final(vertices)@.subrange(0, old(vertices)@.len() as int) == old(vertices)@,
{
    let mut k: usize = 0;
    while k < 6
        invariant
            k <= 6,
            vertices@.len() == old(vertices)@.len() + k,
            forall|t: int|
                0 <= t < k ==> vertices@[old(vertices)@.len() + t] == overlay_vertex_of(t),
            vertices@.subrange(0, old(vertices)@.len() as int) =~= old(vertices)@,
        decreases 6 - k,
    {
        let c = quad_index(k);
        let uv = quad_uv(c);
        vertices.push(UvVertex { u: uv.0, v: uv.1 });
        k = k + 1;
    }
    proof {
        assert(vertices@.subrange(0, old(vertices)@.len() as int) =~= old(vertices)@);
    }
}

/// Converts each extracted light into one quad — six vertices in the shared
/// buffer — and one batch item over that range, keyed by the light's world
/// depth, in scan order.
pub fn batch_lights(lights: &Vec<ExtractedLight>, pipeline: u64, draw_function: u64) -> (r: (
    Vec<LightVertex>,
    Vec<BatchItem>,
))
    requires
        forall|i: int|
            0 <= i < lights@.len() ==> (#[trigger] lights@[i]).transform.bounded(),
        6 * lights@.len() <= usize::MAX,
        lights@.len() <= u32::MAX,
    ensures
        r.0@.len() == 6 * lights@.len(),
        forall|i: int, k: int|
            0 <= i < lights@.len() && 0 <= k < 6 ==> r.0@[6 * i + k] == light_vertex_of(
                lights@[i],
                k,
            ),
        r.1@ == light_items_of(lights@, pipeline, draw_function),
{
    let mut vertices: Vec<LightVertex> = Vec::new();
    let mut items: Vec<BatchItem> = Vec::new();
    let n = lights.len();
    for i in 0..n
        invariant
            n == lights@.len(),
            6 * n <= usize::MAX,
            n <= u32::MAX,
            forall|t: int|
                0 <= t < lights@.len() ==> (#[trigger] lights@[t]).transform.bounded(),
            vertices@.len() == 6 * i,
            items@.len() == i,
            forall|t: int, k: int|
                0 <= t < i && 0 <= k < 6 ==> vertices@[6 * t + k] == light_vertex_of(
                    lights@[t],
                    k,
                ),
            forall|t: int|
                0 <= t < i ==> items@[t] == light_item_of(lights@, t, pipeline, draw_function),
    {
        let l = &lights[i];
        let start = vertices.len();
        let mut k: usize = 0;
        while k < 6
            invariant
                k <= 6,
                l == &lights@[i as int],
                l.transform.bounded(),
                vertices@.len() == start + k,
                start == 6 * i,
                i < n,
                n == lights@.len(),
                6 * n <= usize::MAX,
                forall|t: int, k2: int|
                    0 <= t < i && 0 <= k2 < 6 ==> vertices@[6 * t + k2] == light_vertex_of(
                        lights@[t],
                        k2,
                    ),
                forall|t: int|
                    0 <= t < k ==> vertices@[start + t] == light_vertex_of(lights@[i as int], t),
            decreases 6 - k,
        {
            let v = light_vertex(l, k);
            vertices.push(v);
            k = k + 1;
        }
        let end = vertices.len();
        items.push(
            BatchItem {
                entity: l.entity,
                pipeline,
                draw_function,
                range: VertexRange { start, end },
                sort_key: l.transform.tz,
                binding: ItemBinding::LightUniformOffset(i as u32),
            },
        );
    }
    proof {
        assert(items@ =~= light_items_of(lights@, pipeline, draw_function));
    }
    (vertices, items)
}

} // verus!
