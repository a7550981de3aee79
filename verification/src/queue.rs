//! The per-frame queue stage: bind sets, vertex buffers and batch items.
//!
//! Each frame, the queue stage turns the extracted records into GPU-ready
//! state: it rebuilds the view and uniform bind sets, fills the shared
//! vertex buffers, and produces the batch items the draw stage sorts and
//! replays. When no view-uniform buffer was allocated this frame — no
//! active camera — the stage skips everything and the frame contributes
//! zero draws; that is a recoverable condition, not an error.

use vstd::prelude::*;

use crate::batch::BatchItem;
use crate::batch::ItemBinding;
use crate::batch::OVERLAY_SORT_KEY;
use crate::batch::VertexRange;
use crate::batch::batch_lights;
use crate::batch::light_items_of;
use crate::batch::light_vertex_of;
use crate::batch::overlay_vertex_of;
use crate::batch::push_overlay_quad;
use crate::bind::LightMeta;
use crate::bind::OverlayImageBindGroups;
use crate::bind::OverlayMeta;
use crate::bind::cache_after_all;
use crate::bind::next_after_all;
use crate::extract::ExtractedLight;
use crate::extract::OverlayTarget;
use crate::pipeline::PipelineCache;
use crate::pipeline::PipelineKind;
use crate::pipeline::cache_after;
use crate::pipeline::cache_result;
use crate::pipeline::key_registered;
use crate::RenderError;

verus! {

/// The images of the overlay targets whose offscreen image has resolved to
/// a GPU image this frame, in scan order.
pub open spec fn resolved_images(overlays: Seq<OverlayTarget>, resolved: Seq<u64>) -> Seq<u64>
    decreases overlays.len(),
{
    if overlays.len() == 0 {
        Seq::empty()
    } else if resolved.contains(overlays.last().image) {
        resolved_images(overlays.drop_last(), resolved).push(overlays.last().image)
    } else {
        resolved_images(overlays.drop_last(), resolved)
    }
}

/// An image sequence repeated once per view.
pub open spec fn repeat_images(images: Seq<u64>, times: nat) -> Seq<u64>
    decreases times,
{
    if times == 0 {
        Seq::empty()
    } else {
        repeat_images(images, (times - 1) as nat) + images
    }
}

/// The flat image sequence one frame queues: every view composites every
/// resolved overlay image.
pub open spec fn frame_images(
    overlays: Seq<OverlayTarget>,
    resolved: Seq<u64>,
    views: nat,
) -> Seq<u64> {
    repeat_images(resolved_images(overlays, resolved), views)
}

/// The batch item of the `t`-th queued overlay quad: six vertices starting
/// at `6*t`, drawn artificially late so compositing follows all direct
/// lighting, bound to the material set cached for its image.
pub open spec fn overlay_item_of(images: Seq<u64>, t: int, pipeline: u64, draw_function: u64) -> BatchItem {
    BatchItem {
        entity: images[t],
        pipeline,
        draw_function,
        range: VertexRange { start: (6 * t) as usize, end: (6 * t + 6) as usize },
        sort_key: OVERLAY_SORT_KEY,
        binding: ItemBinding::OverlayImage(images[t]),
    }
}

/// The batch items of a whole queued image sequence.
pub open spec fn overlay_items_of(images: Seq<u64>, pipeline: u64, draw_function: u64) -> Seq<
    BatchItem,
> {
    Seq::new(images.len(), |t: int| overlay_item_of(images, t, pipeline, draw_function))
}

/// No more images come out of a target list than went in.
proof fn lemma_resolved_images_len(overlays: Seq<OverlayTarget>, resolved: Seq<u64>)
    ensures
        resolved_images(overlays, resolved).len() <= overlays.len(),
    decreases overlays.len(),
{
    if overlays.len() > 0 {
        lemma_resolved_images_len(overlays.drop_last(), resolved);
    }
}

/// Repetition multiplies the length.
proof fn lemma_repeat_images_len(images: Seq<u64>, times: nat)
    ensures
        repeat_images(images, times).len() == times * images.len(),
    decreases times,
{
    if times == 0 {
        assert(times * images.len() == 0) by (nonlinear_arith)
            requires
                times == 0,
        ;
    } else {
        let t1 = (times - 1) as nat;
        lemma_repeat_images_len(images, t1);
        assert(times * images.len() == t1 * images.len() + images.len()) by (nonlinear_arith)
            requires
                times == t1 + 1,
        ;
    }
}

/// Insert-or-gets grow the cache, and its fresh-handle counter, by at
/// most one per image.
proof fn lemma_cache_after_all_len(s: Seq<(u64, u64)>, next: u64, images: Seq<u64>)
    requires
        next + images.len() <= u64::MAX,
    ensures
        s.len() <= cache_after_all(s, next, images).len() <= s.len() + images.len(),
        next <= next_after_all(s, next, images) <= next + images.len(),
    decreases images.len(),
{
    if images.len() > 0 {
        lemma_cache_after_all_len(s, next, images.drop_last());
    }
}

/// Every composite quad a frame queues carries a sort key strictly greater
/// than every direct-light item's, provided each light sits below the
/// fixed overlay depth; so compositing sorts after the lit scene.
pub proof fn lemma_overlay_key_dominates(
    lights: Seq<ExtractedLight>,
    lp: u64,
    ldf: u64,
    images: Seq<u64>,
    op: u64,
    odf: u64,
)
    requires
        forall|i: int|
            0 <= i < lights.len() ==> (#[trigger] lights[i]).transform.tz < OVERLAY_SORT_KEY,
    ensures
        forall|i: int, j: int|
            0 <= i < lights.len() && 0 <= j < images.len() ==> #[trigger] light_items_of(
                lights,
                lp,
                ldf,
            )[i].sort_key < #[trigger] overlay_items_of(images, op, odf)[j].sort_key,
{
}

/// Whether a resolved-image list contains an image.
fn contains_id(v: &Vec<u64>, x: u64) -> (r: bool)
    ensures
        r <==> v@.contains(x),
{
    let n = v.len();
    let mut i: usize = 0;
    while i < n
        invariant
            n == v@.len(),
            i <= n,
            forall|j: int| 0 <= j < i ==> v@[j] != x,
        decreases n - i,
    {
        if v[i] == x {
            return true;
        }
        i = i + 1;
    }
    false
}

/// Queues the lighting pipeline's frame: rebuilds the view and light-uniform
/// bind sets, fills the shared vertex buffer with one quad per extracted
/// light, and returns the batch items. When the view-uniform buffer, the
/// uploaded light uniforms or either lookup texture is unavailable this
/// frame, the stage skips and the frame draws nothing.
pub fn queue_light_frame(
    view_uniforms: Option<u64>,
    light_uniforms: Option<u64>,
    falloff_lookup: Option<u64>,
    radial_lookup: Option<u64>,
    lights: &Vec<ExtractedLight>,
    pipelines: &mut PipelineCache,
    meta: &mut LightMeta,
    draw_function: u64,
) -> (r: Result<Vec<BatchItem>, RenderError>)
    requires
        old(pipelines).wf(),
        old(pipelines).entries@.len() < u64::MAX,
        key_registered(old(pipelines).registered@, 0),
        forall|i: int|
            0 <= i < lights@.len() ==> (#[trigger] lights@[i]).transform.bounded(),
        6 * lights@.len() <= usize::MAX,
        lights@.len() <= u32::MAX,
    ensures
        r is Ok,
        final(pipelines).wf(),
        view_uniforms is None || light_uniforms is None || falloff_lookup is None || radial_lookup
            is None ==> (r matches Ok(items) && items@.len() == 0) && *final(meta) == *old(meta)
            && *final(pipelines) == *old(pipelines),
        view_uniforms matches Some(vb) ==> light_uniforms matches Some(lb) ==> falloff_lookup
            is Some ==> radial_lookup is Some ==> {
            &&& final(meta).view_bind_group == Some(vb)
            &&& final(meta).light_bind_group == Some(lb)
            &&& final(meta).vertices@.len() == 6 * lights@.len()
            &&& forall|i: int, k: int|
                0 <= i < lights@.len() && 0 <= k < 6 ==> final(meta).vertices@[6 * i + k]
                    == light_vertex_of(lights@[i], k)
            &&& final(pipelines).entries@ == cache_after(
                old(pipelines).entries@,
                PipelineKind::Lighting,
                0,
            )
            &&& r matches Ok(items) && items@ == light_items_of(
                lights@,
                cache_result(old(pipelines).entries@, PipelineKind::Lighting, 0),
                draw_function,
            )
        },
{
    let vb = match view_uniforms {
        Some(b) => b,
        None => {
            return Ok(Vec::new());
        },
    };
    let lb = match light_uniforms {
        Some(b) => b,
        None => {
            return Ok(Vec::new());
        },
    };
    if falloff_lookup.is_none() || radial_lookup.is_none() {
        return Ok(Vec::new());
    }
    let pid = match pipelines.get_or_build(PipelineKind::Lighting, 0) {
        Ok(id) => id,
        Err(e) => {
            return Err(e);
        },
    };
    let (vertices, items) = batch_lights(lights, pid, draw_function);
    meta.vertices = vertices;
    meta.view_bind_group = Some(vb);
    meta.light_bind_group = Some(lb);
    Ok(items)
}

/// Queues the overlay pipeline's frame, mirroring the lighting queue for
/// composite quads: rebuilds the view bind set, then, for every view and
/// every overlay target whose image has a GPU image, reserves the cached
/// material bind set (creating it on first use), appends one UV quad to the
/// shared buffer and records one batch item with the fixed late sort key.
/// Without a view-uniform buffer the frame is skipped untouched.
pub fn queue_overlay_frame(
    view_uniforms: Option<u64>,
    view_count: usize,
    overlays: &Vec<OverlayTarget>,
    resolved: &Vec<u64>,
    pipelines: &mut PipelineCache,
    image_bind_groups: &mut OverlayImageBindGroups,
    meta: &mut OverlayMeta,
    draw_function: u64,
) -> (r: Result<Vec<BatchItem>, RenderError>)
    requires
        old(pipelines).wf(),
        old(pipelines).entries@.len() + 1 < u64::MAX,
        key_registered(old(pipelines).registered@, 0),
        old(image_bind_groups).wf(),
        old(image_bind_groups).next_id + view_count * overlays@.len() < u64::MAX,
        6 * view_count * overlays@.len() <= usize::MAX,
    ensures
        r is Ok,
        final(pipelines).wf(),
        final(image_bind_groups).wf(),
        view_uniforms is None ==> (r matches Ok(items) && items@.len() == 0) && *final(meta)
            == *old(meta) && *final(pipelines) == *old(pipelines) && *final(image_bind_groups)
            == *old(image_bind_groups),
        view_uniforms matches Some(vb) ==> {
            &&& final(meta).view_bind_group == Some(vb)
            &&& final(meta).vertices@.len() == 6 * frame_images(
                overlays@,
                resolved@,
                view_count as nat,
            ).len()
            &&& forall|t: int, k: int|
                0 <= t && 0 <= k < 6 && 6 * t + k < final(meta).vertices@.len()
                    ==> #[trigger] final(meta).vertices@[6 * t + k] == overlay_vertex_of(k)
            &&& final(image_bind_groups).entries@ == cache_after_all(
                old(image_bind_groups).entries@,
                old(image_bind_groups).next_id,
                frame_images(overlays@, resolved@, view_count as nat),
            )
            &&& final(image_bind_groups).next_id == next_after_all(
                old(image_bind_groups).entries@,
                old(image_bind_groups).next_id,
                frame_images(overlays@, resolved@, view_count as nat),
            )
            &&& view_count > 0 ==> final(pipelines).entries@ == cache_after(
                old(pipelines).entries@,
                PipelineKind::Overlay,
                0,
            )
            &&& view_count == 0 ==> *final(pipelines) == *old(pipelines)
            &&& r matches Ok(items) && items@ == overlay_items_of(
                frame_images(overlays@, resolved@, view_count as nat),
                cache_result(old(pipelines).entries@, PipelineKind::Overlay, 0),
                draw_function,
            )
        },
{
    let vb = match view_uniforms {
        Some(b) => b,
        None => {
            return Ok(Vec::new());
        },
    };
    meta.vertices.clear();
    meta.view_bind_group = Some(vb);
    let mut items: Vec<BatchItem> = Vec::new();
    let ghost images: Seq<u64> = resolved_images(overlays@, resolved@);
    let ghost pid_spec: u64 = cache_result(old(pipelines).entries@, PipelineKind::Overlay, 0);
    proof {
        lemma_resolved_images_len(overlays@, resolved@);
        assert(items@ =~= overlay_items_of(repeat_images(images, 0nat), pid_spec, draw_function));
    }
    let n_overlays = overlays.len();
    let mut v: usize = 0;
    while v < view_count
        invariant
            n_overlays == overlays@.len(),
            pipelines.wf(),
            key_registered(pipelines.registered@, 0),
            pipelines.registered@ == old(pipelines).registered@,
            pipelines.entries@.len() <= old(pipelines).entries@.len() + 1,
            old(pipelines).entries@.len() + 1 < u64::MAX,
            image_bind_groups.wf(),
            v <= view_count,
            images == resolved_images(overlays@, resolved@),
            images.len() <= n_overlays,
            pid_spec == cache_result(old(pipelines).entries@, PipelineKind::Overlay, 0),
            old(image_bind_groups).next_id + view_count * overlays@.len() < u64::MAX,
            6 * view_count * overlays@.len() <= usize::MAX,
            meta.vertices@.len() == 6 * repeat_images(images, v as nat).len(),
            forall|t: int, k: int|
                0 <= t && 0 <= k < 6 && 6 * t + k < meta.vertices@.len()
                    ==> #[trigger] meta.vertices@[6 * t + k] == overlay_vertex_of(k),
            meta.view_bind_group == Some(vb),
            image_bind_groups.entries@ == cache_after_all(
                old(image_bind_groups).entries@,
                old(image_bind_groups).next_id,
                repeat_images(images, v as nat),
            ),
            image_bind_groups.next_id == next_after_all(
                old(image_bind_groups).entries@,
                old(image_bind_groups).next_id,
                repeat_images(images, v as nat),
            ),
            v > 0 ==> pipelines.entries@ == cache_after(
                old(pipelines).entries@,
                PipelineKind::Overlay,
                0,
            ),
            v == 0 ==> *pipelines == *old(pipelines),
            items@ == overlay_items_of(repeat_images(images, v as nat), pid_spec, draw_function),
        decreases view_count - v,
    {
        proof {
            lemma_repeat_images_len(images, v as nat);
            lemma_repeat_images_len(images, (v + 1) as nat);
            assert(v * images.len() + images.len() <= view_count * overlays@.len())
                by (nonlinear_arith)
                requires
                    0 <= v < view_count,
                    0 <= images.len() <= overlays@.len(),
            ;
            if v > 0 {
                crate::pipeline::lemma_pipeline_cache_idempotent(
                    old(pipelines).entries@,
                    PipelineKind::Overlay,
                    0,
                );
            }
        }
        let pid = match pipelines.get_or_build(PipelineKind::Overlay, 0) {
            Ok(id) => id,
            Err(e) => {
                return Err(e);
            },
        };
        let mut k: usize = 0;
        let ghost round_base: Seq<u64> = repeat_images(images, v as nat);
        while k < n_overlays
            invariant
                n_overlays == overlays@.len(),
                image_bind_groups.wf(),
                k <= n_overlays,
                v < view_count,
                images == resolved_images(overlays@, resolved@),
                images.len() <= n_overlays,
                round_base == repeat_images(images, v as nat),
                round_base.len() == v * images.len(),
                old(image_bind_groups).next_id + view_count * overlays@.len() < u64::MAX,
                6 * view_count * overlays@.len() <= usize::MAX,
                v * images.len() + images.len() <= view_count * overlays@.len(),
                resolved_images(overlays@.subrange(0, k as int), resolved@).len() <= k,
                meta.vertices@.len() == 6 * (round_base + resolved_images(
                    overlays@.subrange(0, k as int),
                    resolved@,
                )).len(),
                forall|t: int, k2: int|
                    0 <= t && 0 <= k2 < 6 && 6 * t + k2 < meta.vertices@.len()
                        ==> #[trigger] meta.vertices@[6 * t + k2] == overlay_vertex_of(k2),
                meta.view_bind_group == Some(vb),
                image_bind_groups.entries@ == cache_after_all(
                    old(image_bind_groups).entries@,
                    old(image_bind_groups).next_id,
                    round_base + resolved_images(overlays@.subrange(0, k as int), resolved@),
                ),
                image_bind_groups.next_id == next_after_all(
                    old(image_bind_groups).entries@,
                    old(image_bind_groups).next_id,
                    round_base + resolved_images(overlays@.subrange(0, k as int), resolved@),
                ),
                items@ == overlay_items_of(
                    round_base + resolved_images(overlays@.subrange(0, k as int), resolved@),
                    pid_spec,
                    draw_function,
                ),
                pid == pid_spec,
            decreases n_overlays - k,
        {
            let ghost prefix: Seq<u64> = round_base + resolved_images(
                overlays@.subrange(0, k as int),
                resolved@,
            );
            let o = overlays[k];
            if contains_id(resolved, o.image) {
                proof {
                    assert(prefix.len() < view_count * overlays@.len()) by {
                        assert(resolved_images(overlays@.subrange(0, k as int), resolved@).len()
                            <= k);
                        assert(v * images.len() + k < view_count * overlays@.len())
                            by (nonlinear_arith)
                            requires
                                0 <= v < view_count,
                                0 <= k < n_overlays,
                                n_overlays == overlays@.len(),
                                0 <= images.len(),
                                v * images.len() + images.len() <= view_count * overlays@.len(),
                                k < n_overlays ==> true,
                                images.len() <= n_overlays,
                        ;
                    }
                    lemma_cache_after_all_len(
                        old(image_bind_groups).entries@,
                        old(image_bind_groups).next_id,
                        prefix,
                    );
                }
                proof {
                    assert(meta.vertices@.len() + 6 <= usize::MAX) by (nonlinear_arith)
                        requires
                            meta.vertices@.len() == 6 * prefix.len(),
                            prefix.len() < view_count * overlays@.len(),
                            6 * view_count * overlays@.len() <= usize::MAX,
                            0 <= prefix.len(),
                    ;
                }
                let _bind = image_bind_groups.get_or_insert(o.image);
                let start = meta.vertices.len();
                push_overlay_quad(&mut meta.vertices);
                let end = meta.vertices.len();
                items.push(
                    BatchItem {
                        entity: o.image,
                        pipeline: pid,
                        draw_function,
                        range: VertexRange { start, end },
                        sort_key: OVERLAY_SORT_KEY,
                        binding: ItemBinding::OverlayImage(o.image),
                    },
                );
                proof {
                    let next = prefix.push(o.image);
                    assert(next.drop_last() =~= prefix);
                    assert(cache_after_all(
                        old(image_bind_groups).entries@,
                        old(image_bind_groups).next_id,
                        next,
                    ) == crate::bind::cache_after(
                        cache_after_all(
                            old(image_bind_groups).entries@,
                            old(image_bind_groups).next_id,
                            prefix,
                        ),
                        next_after_all(
                            old(image_bind_groups).entries@,
                            old(image_bind_groups).next_id,
                            prefix,
                        ),
                        o.image,
                    ));
                    assert(forall|t: int, k2: int|
                        0 <= t && 0 <= k2 < 6 && 6 * t + k2 < meta.vertices@.len()
                            ==> #[trigger] meta.vertices@[6 * t + k2] == overlay_vertex_of(k2)) by {
                        assert forall|t: int, k2: int|
                            0 <= t && 0 <= k2 < 6 && 6 * t + k2 < meta.vertices@.len() implies
                            #[trigger] meta.vertices@[6 * t + k2] == overlay_vertex_of(k2) by {
                            if 6 * t + k2 < start {
                                assert(meta.vertices@[6 * t + k2] == meta.vertices@.subrange(
                                    0,
                                    start as int,
                                )[6 * t + k2]);
                            } else {
                                assert(6 * t >= start) by (nonlinear_arith)
                                    requires
                                        6 * t + k2 >= start,
                                        0 <= k2 < 6,
                                        start % 6 == 0,
                                        start == 6 * prefix.len(),
                                        0 <= t,
                                ;
                                assert(6 * t + k2 < start + 6);
                                assert(t == prefix.len()) by (nonlinear_arith)
                                    requires
                                        start == 6 * prefix.len(),
                                        6 * t >= start,
                                        6 * t + k2 < start + 6,
                                        0 <= k2 < 6,
                                ;
                                assert(meta.vertices@[start + (6 * t + k2 - start)]
                                    == overlay_vertex_of(6 * t + k2 - start));
                            }
                        }
                    }
                    assert(items@ =~= overlay_items_of(next, pid_spec, draw_function)) by {
                        assert(forall|t: int|
                            0 <= t < prefix.len() ==> #[trigger] overlay_item_of(
                                next,
                                t,
                                pid_spec,
                                draw_function,
                            ) == overlay_item_of(prefix, t, pid_spec, draw_function));
                    }
                }
            }
            proof {
                let sub = overlays@.subrange(0, k + 1);
                assert(sub.drop_last() =~= overlays@.subrange(0, k as int));
                assert(sub.last() == overlays@[k as int]);
            }
            k = k + 1;
        }
        proof {
            assert(overlays@.subrange(0, n_overlays as int) =~= overlays@);
            assert(round_base + images =~= repeat_images(images, (v + 1) as nat));
        }
        v = v + 1;
    }
    Ok(items)
}

} // verus!
