//! Draw-command emission: replaying an ordered batch list.
//!
//! For each batch item, in the order the sequencer produced, the draw stage
//! binds the item's pipeline, binds each resource set at its declared slot
//! — the view at slot 0, the light uniforms or the overlay material at slot
//! 1, the two lookup textures at slots 2 and 3 for lighting — binds the
//! shared vertex buffer and draws the item's vertex range once. The command
//! sequence is a pure function of the batch list and the frame's resources.
//! A batch item that refers to a missing buffer or bind set is a wiring bug
//! and fails the whole stage hard.

use vstd::prelude::*;

use crate::batch::BatchItem;
use crate::batch::ItemBinding;
use crate::bind::OverlayImageBindGroups;
use crate::bind::cache_map;
use crate::bind::cache_wf;
use crate::RenderError;

verus! {

/// One GPU command of the replayed sequence.
#[derive(Clone, Copy, Debug, PartialEq, Eq, Structural)]
pub enum DrawCommand {
    /// Make a pipeline current.
    BindPipeline { pipeline: u64 },
    /// Bind a resource set at a slot; dynamic offsets index a uniform
    /// slice within the set's buffer.
    BindSet { slot: u32, set: u64, has_dynamic_offset: bool, dynamic_offset: u32 },
    /// Bind the shared vertex buffer.
    BindVertexBuffer { buffer: u64 },
    /// Draw a vertex range, one instance.
    Draw { start: usize, end: usize, instances: u32 },
}

/// The frame resources the draw stage binds from: the per-frame bind sets
/// of the two pipelines, the two shared vertex buffers, and the current
/// view's dynamic offset into the view-uniform buffer.
#[derive(Clone, Copy, Debug, PartialEq, Eq, Structural)]
pub struct DrawResources {
    pub view_offset: u32,
    pub light_view_bind: Option<u64>,
    pub light_uniform_bind: Option<u64>,
    pub falloff_bind: Option<u64>,
    pub radial_bind: Option<u64>,
    pub overlay_view_bind: Option<u64>,
    pub light_vertex_buffer: Option<u64>,
    pub overlay_vertex_buffer: Option<u64>,
}

/// What replaying one batch item fails with, if anything: a bind set that
/// was never built (or never cached, for an overlay image) or a vertex
/// buffer that was never written.
pub open spec fn item_error(
    item: BatchItem,
    res: DrawResources,
    cache: Seq<(u64, u64)>,
) -> Option<RenderError> {
    match item.binding {
        ItemBinding::LightUniformOffset(_) => {
            if res.light_view_bind is None || res.light_uniform_bind is None || res.falloff_bind
                is None || res.radial_bind is None {
                Some(RenderError::MissingBindSet)
            } else if res.light_vertex_buffer is None {
                Some(RenderError::MissingVertexBuffer)
            } else {
                None
            }
        },
        ItemBinding::OverlayImage(image) => {
            if res.overlay_view_bind is None || !cache_map(cache).dom().contains(image) {
                Some(RenderError::MissingBindSet)
            } else if res.overlay_vertex_buffer is None {
                Some(RenderError::MissingVertexBuffer)
            } else {
                None
            }
        },
    }
}

/// The commands replaying one batch item issues, when nothing is missing.
pub open spec fn item_commands(
    item: BatchItem,
    res: DrawResources,
    cache: Seq<(u64, u64)>,
) -> Seq<DrawCommand>
    recommends
        item_error(item, res, cache) is None,
{
    match item.binding {
        ItemBinding::LightUniformOffset(index) => seq![
            DrawCommand::BindPipeline { pipeline: item.pipeline },
            DrawCommand::BindSet {
                slot: 0,
                set: res.light_view_bind->0,
                has_dynamic_offset: true,
                dynamic_offset: res.view_offset,
            },
            DrawCommand::BindSet {
                slot: 1,
                set: res.light_uniform_bind->0,
                has_dynamic_offset: true,
                dynamic_offset: index,
            },
            DrawCommand::BindSet {
                slot: 2,
                set: res.falloff_bind->0,
                has_dynamic_offset: false,
                dynamic_offset: 0,
            },
            DrawCommand::BindSet {
                slot: 3,
                set: res.radial_bind->0,
                has_dynamic_offset: false,
                dynamic_offset: 0,
            },
            DrawCommand::BindVertexBuffer { buffer: res.light_vertex_buffer->0 },
            DrawCommand::Draw { start: item.range.start, end: item.range.end, instances: 1 },
        ],
        ItemBinding::OverlayImage(image) => seq![
            DrawCommand::BindPipeline { pipeline: item.pipeline },
            DrawCommand::BindSet {
                slot: 0,
                set: res.overlay_view_bind->0,
                has_dynamic_offset: true,
                dynamic_offset: res.view_offset,
            },
            DrawCommand::BindSet {
                slot: 1,
                set: cache_map(cache)[image],
                has_dynamic_offset: false,
                dynamic_offset: 0,
            },
            DrawCommand::BindVertexBuffer { buffer: res.overlay_vertex_buffer->0 },
            DrawCommand::Draw { start: item.range.start, end: item.range.end, instances: 1 },
        ],
    }
}

/// The full command sequence of a batch list, item by item.
pub open spec fn commands_of(
    items: Seq<BatchItem>,
    res: DrawResources,
    cache: Seq<(u64, u64)>,
) -> Seq<DrawCommand>
    decreases items.len(),
{
    if items.len() == 0 {
        Seq::empty()
    } else {
        commands_of(items.drop_last(), res, cache) + item_commands(items.last(), res, cache)
    }
}

/// The first failure a front-to-back replay of the batch list hits.
pub open spec fn first_error(
    items: Seq<BatchItem>,
    res: DrawResources,
    cache: Seq<(u64, u64)>,
) -> Option<RenderError>
    decreases items.len(),
{
    if items.len() == 0 {
        None
    } else if item_error(items.first(), res, cache) is Some {
        item_error(items.first(), res, cache)
    } else {
        first_error(items.drop_first(), res, cache)
    }
}

/// When every item before position `k` replays cleanly, the stage's first
/// failure is item `k`'s.
proof fn lemma_first_error_at(
    items: Seq<BatchItem>,
    res: DrawResources,
    cache: Seq<(u64, u64)>,
    k: int,
)
    requires
        0 <= k < items.len(),
        forall|j: int| 0 <= j < k ==> #[trigger] item_error(items[j], res, cache) is None,
    ensures
        item_error(items[k], res, cache) is Some ==> first_error(items, res, cache) == item_error(
            items[k],
            res,
            cache,
        ),
    decreases k,
{
    if k > 0 {
        assert(item_error(items.first(), res, cache) is None);
        assert(forall|j: int|
            0 <= j < k - 1 ==> #[trigger] item_error(items.drop_first()[j], res, cache) is None)
            by {
            assert(forall|j: int|
                0 <= j < k - 1 ==> items.drop_first()[j] == items[j + 1]);
        }
        lemma_first_error_at(items.drop_first(), res, cache, k - 1);
        assert(items.drop_first()[k - 1] == items[k]);
    }
}

/// When every item replays cleanly, the stage does not fail.
proof fn lemma_first_error_none(items: Seq<BatchItem>, res: DrawResources, cache: Seq<(u64, u64)>)
    requires
        forall|j: int| 0 <= j < items.len() ==> #[trigger] item_error(items[j], res, cache)
            is None,
    ensures
        first_error(items, res, cache) is None,
    decreases items.len(),
{
    if items.len() > 0 {
        assert(forall|j: int|
            0 <= j < items.len() - 1 ==> items.drop_first()[j] == items[j + 1]);
        lemma_first_error_none(items.drop_first(), res, cache);
    }
}

/// Replays an ordered batch list into the GPU command sequence: per item,
/// bind pipeline, bind each set at its slot, bind the vertex buffer, draw
/// the item's range once. Fails hard, with the first failing item's error,
/// when an item refers to a bind set or vertex buffer that does not exist
/// this frame.
pub fn emit_commands(
    items: &Vec<BatchItem>,
    res: &DrawResources,
    cache: &OverlayImageBindGroups,
) -> (r: Result<Vec<DrawCommand>, RenderError>)
    requires
        cache_wf(cache.entries@),
    ensures
        r matches Ok(cmds) ==> first_error(items@, *res, cache.entries@) is None && cmds@
            == commands_of(items@, *res, cache.entries@),
        r matches Err(e) ==> first_error(items@, *res, cache.entries@) == Some(e),
{
    let mut cmds: Vec<DrawCommand> = Vec::new();
    let n = items.len();
    let mut i: usize = 0;
    while i < n
        invariant
            cache_wf(cache.entries@),
            n == items@.len(),
            i <= n,
            forall|j: int| 0 <= j < i ==> #[trigger] item_error(items@[j], *res, cache.entries@)
                is None,
            cmds@ == commands_of(items@.subrange(0, i as int), *res, cache.entries@),
        decreases n - i,
    {
        let item = &items[i];
        match item.binding {
            ItemBinding::LightUniformOffset(index) => {
                let vbind = match res.light_view_bind {
                    Some(b) => b,
                    None => {
                        proof {
                            lemma_first_error_at(items@, *res, cache.entries@, i as int);
                        }
                        return Err(RenderError::MissingBindSet);
                    },
                };
                let ubind = match res.light_uniform_bind {
                    Some(b) => b,
                    None => {
                        proof {
                            lemma_first_error_at(items@, *res, cache.entries@, i as int);
                        }
                        return Err(RenderError::MissingBindSet);
                    },
                };
                let fbind = match res.falloff_bind {
                    Some(b) => b,
                    None => {
                        proof {
                            lemma_first_error_at(items@, *res, cache.entries@, i as int);
                        }
                        return Err(RenderError::MissingBindSet);
                    },
                };
                let rbind = match res.radial_bind {
                    Some(b) => b,
                    None => {
                        proof {
                            lemma_first_error_at(items@, *res, cache.entries@, i as int);
                        }
                        return Err(RenderError::MissingBindSet);
                    },
                };
                let buffer = match res.light_vertex_buffer {
                    Some(b) => b,
                    None => {
                        proof {
                            lemma_first_error_at(items@, *res, cache.entries@, i as int);
                        }
                        return Err(RenderError::MissingVertexBuffer);
                    },
                };
                cmds.push(DrawCommand::BindPipeline { pipeline: item.pipeline });
                cmds.push(
                    DrawCommand::BindSet {
                        slot: 0,
                        set: vbind,
                        has_dynamic_offset: true,
                        dynamic_offset: res.view_offset,
                    },
                );
                cmds.push(
                    DrawCommand::BindSet {
                        slot: 1,
                        set: ubind,
                        has_dynamic_offset: true,
                        dynamic_offset: index,
                    },
                );
                cmds.push(
                    DrawCommand::BindSet {
                        slot: 2,
                        set: fbind,
                        has_dynamic_offset: false,
                        dynamic_offset: 0,
                    },
                );
                cmds.push(
                    DrawCommand::BindSet {
                        slot: 3,
                        set: rbind,
                        has_dynamic_offset: false,
                        dynamic_offset: 0,
                    },
                );
                cmds.push(DrawCommand::BindVertexBuffer { buffer });
                cmds.push(
                    DrawCommand::Draw {
                        start: item.range.start,
                        end: item.range.end,
                        instances: 1,
                    },
                );
            },
            ItemBinding::OverlayImage(image) => {
                let vbind = match res.overlay_view_bind {
                    Some(b) => b,
                    None => {
                        proof {
                            lemma_first_error_at(items@, *res, cache.entries@, i as int);
                        }
                        return Err(RenderError::MissingBindSet);
                    },
                };
                let mbind = match cache.get(image) {
                    Some(b) => b,
                    None => {
                        proof {
                            lemma_first_error_at(items@, *res, cache.entries@, i as int);
                        }
                        return Err(RenderError::MissingBindSet);
                    },
                };
                let buffer = match res.overlay_vertex_buffer {
                    Some(b) => b,
                    None => {
                        proof {
                            lemma_first_error_at(items@, *res, cache.entries@, i as int);
                        }
                        return Err(RenderError::MissingVertexBuffer);
                    },
                };
                cmds.push(DrawCommand::BindPipeline { pipeline: item.pipeline });
                cmds.push(
                    DrawCommand::BindSet {
                        slot: 0,
                        set: vbind,
                        has_dynamic_offset: true,
                        dynamic_offset: res.view_offset,
                    },
                );
                cmds.push(
                    DrawCommand::BindSet {
                        slot: 1,
                        set: mbind,
                        has_dynamic_offset: false,
                        dynamic_offset: 0,
                    },
                );
                cmds.push(DrawCommand::BindVertexBuffer { buffer });
                cmds.push(
                    DrawCommand::Draw {
                        start: item.range.start,
                        end: item.range.end,
                        instances: 1,
                    },
                );
            },
        }
        proof {
            let sub = items@.subrange(0, i + 1);
            assert(sub.drop_last() =~= items@.subrange(0, i as int));
            assert(sub.last() == items@[i as int]);
            assert(cmds@ =~= commands_of(items@.subrange(0, i + 1), *res, cache.entries@));
        }
        i = i + 1;
    }
    proof {
        assert(items@.subrange(0, n as int) =~= items@);
        lemma_first_error_none(items@, *res, cache.entries@);
    }
    Ok(cmds)
}

} // verus!
