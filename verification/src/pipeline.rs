//! GPU pipeline descriptors and the per-subsystem pipeline cache.
//!
//! Each pipeline is described as plain data: its bind-group layouts slot by
//! slot, its vertex layout, and its fixed raster state. The cache builds a
//! pipeline once per specialization key and hands the same handle back for
//! every later request under that key; only key `0` is registered today, and
//! requesting an unregistered key is a wiring bug surfaced as a hard error.

use vstd::prelude::*;

use crate::RenderError;

verus! {

/// The two render pipelines of the subsystem.
#[derive(Clone, Copy, Debug, PartialEq, Eq, Structural)]
pub enum PipelineKind {
    /// Direct point-light rendering.
    Lighting,
    /// Compositing an offscreen image over the primary view.
    Overlay,
}

/// One binding of a bind-group layout.
#[derive(Clone, Copy, Debug, PartialEq, Eq, Structural)]
pub enum LayoutEntry {
    /// A uniform buffer, bound with a dynamic offset when `dynamic` holds.
    UniformBuffer { dynamic: bool },
    /// A filterable 2D float texture.
    Texture,
    /// A filtering sampler.
    Sampler,
}

/// A per-vertex attribute format.
#[derive(Clone, Copy, Debug, PartialEq, Eq, Structural)]
pub enum VertexFormat {
    Float32x2,
    Float32x3,
}

/// A bind-group layout: its bindings in slot order.
pub struct BindGroupLayout {
    pub entries: Vec<LayoutEntry>,
}

/// A complete pipeline description: everything the GPU needs, as data. The
/// raster state is fixed across the subsystem: triangle lists, no culling,
/// counter-clockwise front faces, alpha-over blending into a gamma-correct
/// 8-bit color target, four samples.
pub struct PipelineDescriptor {
    pub kind: PipelineKind,
    pub vertex_formats: Vec<VertexFormat>,
    pub layouts: Vec<BindGroupLayout>,
    pub sample_count: u32,
    pub alpha_blend: bool,
    pub front_face_ccw: bool,
    pub cull: bool,
    pub triangle_list: bool,
}

/// The bind-group layouts of the lighting pipeline, slot by slot: the view
/// transform, the light uniforms (both at dynamic offsets), the falloff
/// lookup texture and the point-light radial lookup texture, each with its
/// sampler.
pub open spec fn lighting_layouts_spec() -> Seq<Seq<LayoutEntry>> {
    seq![
        seq![LayoutEntry::UniformBuffer { dynamic: true }],
        seq![LayoutEntry::UniformBuffer { dynamic: true }],
        seq![LayoutEntry::Texture, LayoutEntry::Sampler],
        seq![LayoutEntry::Texture, LayoutEntry::Sampler],
    ]
}

/// The bind-group layouts of the overlay pipeline: the view transform at a
/// dynamic offset, then the source image with its sampler.
pub open spec fn overlay_layouts_spec() -> Seq<Seq<LayoutEntry>> {
    seq![
        seq![LayoutEntry::UniformBuffer { dynamic: true }],
        seq![LayoutEntry::Texture, LayoutEntry::Sampler],
    ]
}

/// The vertex layout of each pipeline: lights carry a world position and a
/// UV, overlay quads a UV alone.
pub open spec fn vertex_formats_spec(kind: PipelineKind) -> Seq<VertexFormat> {
    match kind {
        PipelineKind::Lighting => seq![VertexFormat::Float32x3, VertexFormat::Float32x2],
        PipelineKind::Overlay => seq![VertexFormat::Float32x2],
    }
}

/// The layout sequence of a pipeline kind.
pub open spec fn layouts_spec(kind: PipelineKind) -> Seq<Seq<LayoutEntry>> {
    match kind {
        PipelineKind::Lighting => lighting_layouts_spec(),
        PipelineKind::Overlay => overlay_layouts_spec(),
    }
}

/// The layouts of a built descriptor, as sequences.
pub open spec fn descriptor_layouts(d: PipelineDescriptor) -> Seq<Seq<LayoutEntry>> {
    d.layouts@.map_values(|l: BindGroupLayout| l.entries@)
}

/// Builds the descriptor for one pipeline kind under one specialization
/// key. Today every registered key describes the same, single
/// configuration; the key exists so that variants can specialize later.
pub fn specialize(kind: PipelineKind, key: u32) -> (d: PipelineDescriptor)
    ensures
        d.kind == kind,
        d.vertex_formats@ == vertex_formats_spec(kind),
        descriptor_layouts(d) == layouts_spec(kind),
        d.sample_count == 4,
        d.alpha_blend,
        d.front_face_ccw,
        !d.cull,
        d.triangle_list,
{
    let mut layouts: Vec<BindGroupLayout> = Vec::new();
    let mut vertex_formats: Vec<VertexFormat> = Vec::new();
    match kind {
        PipelineKind::Lighting => {
            vertex_formats.push(VertexFormat::Float32x3);
            vertex_formats.push(VertexFormat::Float32x2);
            let mut view: Vec<LayoutEntry> = Vec::new();
            view.push(LayoutEntry::UniformBuffer { dynamic: true });
            layouts.push(BindGroupLayout { entries: view });
            let mut lights: Vec<LayoutEntry> = Vec::new();
            lights.push(LayoutEntry::UniformBuffer { dynamic: true });
            layouts.push(BindGroupLayout { entries: lights });
            let mut falloff: Vec<LayoutEntry> = Vec::new();
            falloff.push(LayoutEntry::Texture);
            falloff.push(LayoutEntry::Sampler);
            layouts.push(BindGroupLayout { entries: falloff });
            let mut radial: Vec<LayoutEntry> = Vec::new();
            radial.push(LayoutEntry::Texture);
            radial.push(LayoutEntry::Sampler);
            layouts.push(BindGroupLayout { entries: radial });
        },
        PipelineKind::Overlay => {
            vertex_formats.push(VertexFormat::Float32x2);
            let mut view: Vec<LayoutEntry> = Vec::new();
            view.push(LayoutEntry::UniformBuffer { dynamic: true });
            layouts.push(BindGroupLayout { entries: view });
            let mut material: Vec<LayoutEntry> = Vec::new();
            material.push(LayoutEntry::Texture);
            material.push(LayoutEntry::Sampler);
            layouts.push(BindGroupLayout { entries: material });
        },
    }
    let d = PipelineDescriptor {
        kind,
        vertex_formats,
        layouts,
        sample_count: 4,
        alpha_blend: true,
        front_face_ccw: true,
        cull: false,
        triangle_list: true,
    };
    proof {
        assert(d.vertex_formats@ =~= vertex_formats_spec(kind));
        assert(descriptor_layouts(d) =~~= layouts_spec(kind));
    }
    d
}

/// Whether a specialization key has been registered with the cache.
pub open spec fn key_registered(keys: Seq<u32>, key: u32) -> bool {
    exists|i: int| 0 <= i < keys.len() && keys[i] == key
}

/// Whether the cache already holds a pipeline for a kind and key.
pub open spec fn cache_has(entries: Seq<(PipelineKind, u32, u64)>, kind: PipelineKind, key: u32) -> bool {
    exists|i: int| 0 <= i < entries.len() && entries[i].0 == kind && entries[i].1 == key
}

/// The handle stored for a kind and key, scanning from the newest entry.
pub open spec fn cache_lookup(
    entries: Seq<(PipelineKind, u32, u64)>,
    kind: PipelineKind,
    key: u32,
) -> u64
    decreases entries.len(),
{
    if entries.len() == 0 {
        0
    } else if entries.last().0 == kind && entries.last().1 == key {
        entries.last().2
    } else {
        cache_lookup(entries.drop_last(), kind, key)
    }
}

/// The handle a get-or-build for a kind and key hands back: the cached one
/// when it exists, else the next build position.
pub open spec fn cache_result(
    entries: Seq<(PipelineKind, u32, u64)>,
    kind: PipelineKind,
    key: u32,
) -> u64 {
    if cache_has(entries, kind, key) {
        cache_lookup(entries, kind, key)
    } else {
        entries.len() as u64
    }
}

/// The entry list after a get-or-build for a kind and key.
pub open spec fn cache_after(
    entries: Seq<(PipelineKind, u32, u64)>,
    kind: PipelineKind,
    key: u32,
) -> Seq<(PipelineKind, u32, u64)> {
    if cache_has(entries, kind, key) {
        entries
    } else {
        entries.push((kind, key, entries.len() as u64))
    }
}

/// In a uniquely-keyed list, the entry holding a kind and key is what
/// `cache_lookup` finds.
proof fn lemma_cache_lookup_index(
    entries: Seq<(PipelineKind, u32, u64)>,
    kind: PipelineKind,
    key: u32,
    i: int,
)
    requires
        forall|a: int, b: int|
            0 <= a < b < entries.len() ==> !((#[trigger] entries[a]).0 == (
            #[trigger] entries[b]).0 && entries[a].1 == entries[b].1),
        0 <= i < entries.len(),
        entries[i].0 == kind,
        entries[i].1 == key,
    ensures
        cache_has(entries, kind, key),
        cache_lookup(entries, kind, key) == entries[i].2,
    decreases entries.len(),
{
    if i < entries.len() - 1 {
        assert(entries.drop_last()[i] == entries[i]);
        lemma_cache_lookup_index(entries.drop_last(), kind, key, i);
    }
}

/// A second get-or-build under the same kind and key returns the same
/// handle and leaves the entry list as it was.
pub proof fn lemma_pipeline_cache_idempotent(
    entries: Seq<(PipelineKind, u32, u64)>,
    kind: PipelineKind,
    key: u32,
)
    ensures
        cache_after(cache_after(entries, kind, key), kind, key) == cache_after(entries, kind, key),
        cache_result(cache_after(entries, kind, key), kind, key) == cache_result(
            entries,
            kind,
            key,
        ),
{
    let s1 = cache_after(entries, kind, key);
    if !cache_has(entries, kind, key) {
        assert(s1.last() == (kind, key, entries.len() as u64));
        assert(s1.drop_last() =~= entries);
        assert(cache_has(s1, kind, key));
        assert(cache_lookup(s1, kind, key) == entries.len() as u64);
    }
}

/// The pipeline cache: one built pipeline per (kind, key), plus the set of
/// registered specialization keys. Handles are indices into the build
/// order, so a handle is valid for the life of the cache.
pub struct PipelineCache {
    pub registered: Vec<u32>,
    pub entries: Vec<(PipelineKind, u32, u64)>,
}

impl PipelineCache {
    /// Entries are keyed uniquely and handles are their build positions.
    pub open spec fn wf(self) -> bool {
        &&& forall|i: int, j: int|
            0 <= i < j < self.entries@.len() ==> !(self.entries@[i].0 == self.entries@[j].0
                && self.entries@[i].1 == self.entries@[j].1)
        &&& forall|i: int|
            0 <= i < self.entries@.len() ==> (#[trigger] self.entries@[i]).2 == i as u64
    }

    /// A fresh cache with only the default key registered and nothing
    /// built.
    pub fn new() -> (c: PipelineCache)
        ensures
            c.wf(),
            c.registered@ == seq![0u32],
            c.entries@.len() == 0,
    {
        let mut registered: Vec<u32> = Vec::new();
        registered.push(0);
        proof {
            assert(registered@ =~= seq![0u32]);
        }
        PipelineCache { registered, entries: Vec::new() }
    }

    /// Returns the pipeline handle for a kind under a specialization key,
    /// building it at most once: a repeated request under the same key
    /// returns the identical handle and leaves the cache untouched. An
    /// unregistered key is a wiring bug and fails hard.
    pub fn get_or_build(&mut self, kind: PipelineKind, key: u32) -> (r: Result<u64, RenderError>)
        requires
            old(self).wf(),
            old(self).entries@.len() < u64::MAX,
        ensures
            final(self).wf(),
            final(self).registered@ == old(self).registered@,
            r is Err <==> !key_registered(old(self).registered@, key),
            r is Err ==> r == Err::<u64, RenderError>(RenderError::UnregisteredPipeline)
                && *final(self) == *old(self),
            r matches Ok(id) ==> id == cache_result(old(self).entries@, kind, key)
                && final(self).entries@ == cache_after(old(self).entries@, kind, key),
            cache_has(old(self).entries@, kind, key) ==> final(self).entries@ == old(
                self,
            ).entries@,
    {
        let mut found_key = false;
        let nk = self.registered.len();
        let mut t: usize = 0;
        while t < nk
            invariant
                nk == self.registered@.len(),
                found_key <==> exists|i: int| 0 <= i < t && self.registered@[i] == key,
                t <= nk,
            decreases nk - t,
        {
            if self.registered[t] == key {
                found_key = true;
            }
            t = t + 1;
        }
        if !found_key {
            return Err(RenderError::UnregisteredPipeline);
        }
        let n = self.entries.len();
        let mut i: usize = 0;
        while i < n
            invariant
                *self == *old(self),
                self.wf(),
                key_registered(self.registered@, key),
                n == self.entries@.len(),
                i <= n,
                forall|j: int|
                    0 <= j < i ==> !((#[trigger] self.entries@[j]).0 == kind && self.entries@[j].1
                        == key),
            decreases n - i,
        {
            let e = self.entries[i];
            if kind_eq(e.0, kind) && e.1 == key {
                proof {
                    lemma_cache_lookup_index(self.entries@, kind, key, i as int);
                }
                return Ok(e.2);
            }
            i = i + 1;
        }
        let id = n as u64;
        self.entries.push((kind, key, id));
        Ok(id)
    }

    /// How many pipelines have been built.
    pub fn built_count(&self) -> (n: usize)
        ensures
            n == self.entries@.len(),
    {
        self.entries.len()
    }
}

/// Compares two pipeline kinds.
fn kind_eq(a: PipelineKind, b: PipelineKind) -> (r: bool)
    ensures
        r <==> a == b,
{
    match (a, b) {
        (PipelineKind::Lighting, PipelineKind::Lighting) => true,
        (PipelineKind::Overlay, PipelineKind::Overlay) => true,
        _ => false,
    }
}

} // verus!
