use light2d::batch::{BatchItem, ItemBinding, VertexRange, OVERLAY_SORT_KEY};
use light2d::bind::OverlayImageBindGroups;
use light2d::draw::{emit_commands, DrawCommand, DrawResources};
use light2d::sequence::sequence_items;
use light2d::RenderError;

fn item(entity: u64, sort_key: i64, start: usize) -> BatchItem {
    BatchItem {
        entity,
        pipeline: 1,
        draw_function: 2,
        range: VertexRange { start, end: start + 6 },
        sort_key,
        binding: ItemBinding::LightUniformOffset(0),
    }
}

fn full_resources() -> DrawResources {
    DrawResources {
        view_offset: 64,
        light_view_bind: Some(10),
        light_uniform_bind: Some(11),
        falloff_bind: Some(12),
        radial_bind: Some(13),
        overlay_view_bind: Some(14),
        light_vertex_buffer: Some(20),
        overlay_vertex_buffer: Some(21),
    }
}

#[test]
fn sequencing_sorts_by_ascending_key() {
    let items = vec![item(1, 50, 0), item(2, 10, 6), item(3, 30, 12), item(4, 10, 18)];
    let out = sequence_items(&items);
    let keys: Vec<i64> = out.iter().map(|i| i.sort_key).collect();
    assert_eq!(keys, vec![10, 10, 30, 50]);
    // Equal keys keep their scan order.
    let order: Vec<u64> = out.iter().map(|i| i.entity).collect();
    assert_eq!(order, vec![2, 4, 3, 1]);
}

#[test]
fn sequencing_is_idempotent() {
    let items = vec![item(1, 50, 0), item(2, 10, 6), item(3, 30, 12), item(4, 10, 18)];
    let once = sequence_items(&items);
    let twice = sequence_items(&once);
    assert_eq!(once, twice);
    // And re-running on the identical input reproduces the same sequence.
    let again = sequence_items(&items);
    assert_eq!(once, again);
}

#[test]
fn light_item_replays_as_seven_commands() {
    let items = vec![item(1, 0, 0)];
    let cache = OverlayImageBindGroups::new();
    let cmds = emit_commands(&items, &full_resources(), &cache).unwrap();
    assert_eq!(
        cmds,
        vec![
            DrawCommand::BindPipeline { pipeline: 1 },
            DrawCommand::BindSet { slot: 0, set: 10, has_dynamic_offset: true, dynamic_offset: 64 },
            DrawCommand::BindSet { slot: 1, set: 11, has_dynamic_offset: true, dynamic_offset: 0 },
            DrawCommand::BindSet { slot: 2, set: 12, has_dynamic_offset: false, dynamic_offset: 0 },
            DrawCommand::BindSet { slot: 3, set: 13, has_dynamic_offset: false, dynamic_offset: 0 },
            DrawCommand::BindVertexBuffer { buffer: 20 },
            DrawCommand::Draw { start: 0, end: 6, instances: 1 },
        ]
    );
}

#[test]
fn overlay_item_replays_as_five_commands() {
    let mut cache = OverlayImageBindGroups::new();
    let material = cache.get_or_insert(42);
    let items = vec![BatchItem {
        entity: 42,
        pipeline: 5,
        draw_function: 6,
        range: VertexRange { start: 0, end: 6 },
        sort_key: OVERLAY_SORT_KEY,
        binding: ItemBinding::OverlayImage(42),
    }];
    let cmds = emit_commands(&items, &full_resources(), &cache).unwrap();
    assert_eq!(
        cmds,
        vec![
            DrawCommand::BindPipeline { pipeline: 5 },
            DrawCommand::BindSet { slot: 0, set: 14, has_dynamic_offset: true, dynamic_offset: 64 },
            DrawCommand::BindSet {
                slot: 1,
                set: material,
                has_dynamic_offset: false,
                dynamic_offset: 0
            },
            DrawCommand::BindVertexBuffer { buffer: 21 },
            DrawCommand::Draw { start: 0, end: 6, instances: 1 },
        ]
    );
}

#[test]
fn missing_lookup_bind_set_fails_hard() {
    let items = vec![item(1, 0, 0)];
    let cache = OverlayImageBindGroups::new();
    let mut res = full_resources();
    res.falloff_bind = None;
    assert_eq!(emit_commands(&items, &res, &cache), Err(RenderError::MissingBindSet));
}

#[test]
fn missing_vertex_buffer_fails_hard() {
    let items = vec![item(1, 0, 0)];
    let cache = OverlayImageBindGroups::new();
    let mut res = full_resources();
    res.light_vertex_buffer = None;
    assert_eq!(emit_commands(&items, &res, &cache), Err(RenderError::MissingVertexBuffer));
}

#[test]
fn uncached_overlay_image_fails_hard() {
    let items = vec![BatchItem {
        entity: 42,
        pipeline: 5,
        draw_function: 6,
        range: VertexRange { start: 0, end: 6 },
        sort_key: OVERLAY_SORT_KEY,
        binding: ItemBinding::OverlayImage(42),
    }];
    let cache = OverlayImageBindGroups::new();
    assert_eq!(
        emit_commands(&items, &full_resources(), &cache),
        Err(RenderError::MissingBindSet)
    );
}

#[test]
fn empty_batch_list_replays_as_no_commands() {
    let items: Vec<BatchItem> = Vec::new();
    let cache = OverlayImageBindGroups::new();
    let cmds = emit_commands(&items, &full_resources(), &cache).unwrap();
    assert!(cmds.is_empty());
}
