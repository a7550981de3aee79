//! Frame bind sets and the overlay material bind-set cache.
//!
//! Bind sets are rebuilt every frame except the overlay material sets: one
//! texture-plus-sampler set per distinct source image, cached by image
//! identity across frames. First use creates and inserts the set;
//! every later use — from any overlay target sharing that image — reuses
//! the cached entry, so no duplicate GPU object is ever created. An entry
//! persists until its image is no longer referenced: each frame the host
//! marks the live images and the cache evicts the rest.

use vstd::prelude::*;

use crate::batch::LightVertex;
use crate::batch::UvVertex;

verus! {

/// The lighting pipeline's frame-scoped resources: the shared vertex
/// buffer and the bind sets built each frame.
pub struct LightMeta {
    pub vertices: Vec<LightVertex>,
    pub view_bind_group: Option<u64>,
    pub light_bind_group: Option<u64>,
}

impl Default for LightMeta {
    /// An empty buffer and no bind sets yet.
    fn default() -> (d: LightMeta)
        ensures
            d.vertices@.len() == 0,
            d.view_bind_group is None,
            d.light_bind_group is None,
    {
        LightMeta { vertices: Vec::new(), view_bind_group: None, light_bind_group: None }
    }
}

/// The overlay pipeline's frame-scoped resources.
pub struct OverlayMeta {
    pub vertices: Vec<UvVertex>,
    pub view_bind_group: Option<u64>,
}

impl Default for OverlayMeta {
    /// An empty buffer and no view bind set yet.
    fn default() -> (d: OverlayMeta)
        ensures
            d.vertices@.len() == 0,
            d.view_bind_group is None,
    {
        OverlayMeta { vertices: Vec::new(), view_bind_group: None }
    }
}

/// The image-to-bind-set association a cache's entry list denotes.
pub open spec fn cache_map(s: Seq<(u64, u64)>) -> Map<u64, u64>
    decreases s.len(),
{
    if s.len() == 0 {
        Map::empty()
    } else {
        cache_map(s.drop_last()).insert(s.last().0, s.last().1)
    }
}

/// Entries are keyed by distinct images and carry strictly increasing
/// handles, in creation order; handles therefore never collide, even with
/// entries long evicted.
pub open spec fn cache_wf(s: Seq<(u64, u64)>) -> bool {
    forall|i: int, j: int|
        0 <= i < j < s.len() ==> (#[trigger] s[i]).0 != (#[trigger] s[j]).0 && s[i].1 < s[j].1
}

/// The entry list after an insert-or-get for one image: unchanged when the
/// image is already cached, extended by one entry with the next fresh
/// handle otherwise.
pub open spec fn cache_after(s: Seq<(u64, u64)>, next: u64, image: u64) -> Seq<(u64, u64)> {
    if cache_map(s).dom().contains(image) {
        s
    } else {
        s.push((image, next))
    }
}

/// The fresh-handle counter after an insert-or-get for one image.
pub open spec fn next_after(s: Seq<(u64, u64)>, next: u64, image: u64) -> u64 {
    if cache_map(s).dom().contains(image) {
        next
    } else {
        (next + 1) as u64
    }
}

/// The handle an insert-or-get for one image returns.
pub open spec fn cache_result(s: Seq<(u64, u64)>, next: u64, image: u64) -> u64 {
    if cache_map(s).dom().contains(image) {
        cache_map(s)[image]
    } else {
        next
    }
}

/// The entry list after insert-or-gets for a whole image sequence, in
/// order.
pub open spec fn cache_after_all(s: Seq<(u64, u64)>, next: u64, images: Seq<u64>) -> Seq<
    (u64, u64),
>
    decreases images.len(),
{
    if images.len() == 0 {
        s
    } else {
        cache_after(
            cache_after_all(s, next, images.drop_last()),
            next_after_all(s, next, images.drop_last()),
            images.last(),
        )
    }
}

/// The fresh-handle counter after insert-or-gets for a whole image
/// sequence.
pub open spec fn next_after_all(s: Seq<(u64, u64)>, next: u64, images: Seq<u64>) -> u64
    decreases images.len(),
{
    if images.len() == 0 {
        next
    } else {
        next_after(
            cache_after_all(s, next, images.drop_last()),
            next_after_all(s, next, images.drop_last()),
            images.last(),
        )
    }
}

/// The entries that survive an eviction sweep: those whose image the host
/// still references, in their original order and with their handles.
pub open spec fn retained(s: Seq<(u64, u64)>, live: Seq<u64>) -> Seq<(u64, u64)>
    decreases s.len(),
{
    if s.len() == 0 {
        s
    } else {
        let rest = retained(s.drop_last(), live);
        if live.contains(s.last().0) {
            rest.push(s.last())
        } else {
            rest
        }
    }
}

/// An entry of a well-formed list is what the denoted map says.
proof fn lemma_cache_map_index(s: Seq<(u64, u64)>, i: int)
    requires
        cache_wf(s),
        0 <= i < s.len(),
    ensures
        cache_map(s).dom().contains(s[i].0),
        cache_map(s)[s[i].0] == s[i].1,
    decreases s.len(),
{
    if i < s.len() - 1 {
        assert(s.drop_last()[i] == s[i]);
        assert(cache_wf(s.drop_last())) by {
            assert(forall|a: int, b: int|
                0 <= a < b < s.drop_last().len() ==> (#[trigger] s.drop_last()[a]).0 != (
                #[trigger] s.drop_last()[b]).0 && s.drop_last()[a].1 < s.drop_last()[b].1);
        }
        lemma_cache_map_index(s.drop_last(), i);
    }
}

/// Every image of the denoted map stands in some entry.
proof fn lemma_cache_map_contains(s: Seq<(u64, u64)>, image: u64)
    requires
        cache_map(s).dom().contains(image),
    ensures
        exists|i: int| 0 <= i < s.len() && (#[trigger] s[i]).0 == image,
    decreases s.len(),
{
    if s.len() > 0 && s.last().0 != image {
        lemma_cache_map_contains(s.drop_last(), image);
        let i = choose|i: int| 0 <= i < s.drop_last().len() && (#[trigger] s.drop_last()[i]).0
            == image;
        assert(s[i].0 == image);
    }
}

/// Eviction keeps a subsequence: well-formedness and the handle bound
/// survive, and every surviving entry stood in the original list.
proof fn lemma_retained_wf(s: Seq<(u64, u64)>, live: Seq<u64>)
    requires
        cache_wf(s),
    ensures
        cache_wf(retained(s, live)),
        retained(s, live).len() <= s.len(),
        forall|t: int|
            0 <= t < retained(s, live).len() ==> exists|j: int|
                0 <= j < s.len() && #[trigger] retained(s, live)[t] == s[j],
    decreases s.len(),
{
    if s.len() > 0 {
        assert(cache_wf(s.drop_last())) by {
            assert(forall|a: int, b: int|
                0 <= a < b < s.drop_last().len() ==> (#[trigger] s.drop_last()[a]).0 != (
                #[trigger] s.drop_last()[b]).0 && s.drop_last()[a].1 < s.drop_last()[b].1);
        }
        lemma_retained_wf(s.drop_last(), live);
        let rest = retained(s.drop_last(), live);
        assert(forall|t: int|
            0 <= t < rest.len() ==> exists|j: int|
                0 <= j < s.len() && #[trigger] rest[t] == s[j]) by {
            assert(forall|t: int, j: int|
                0 <= t < rest.len() && 0 <= j < s.drop_last().len() && rest[t] == s.drop_last()[j]
                    ==> rest[t] == s[j]);
        }
        if live.contains(s.last().0) {
            let out = rest.push(s.last());
            assert(cache_wf(out)) by {
                assert forall|a: int, b: int| 0 <= a < b < out.len() implies (#[trigger] out[a]).0
                    != (#[trigger] out[b]).0 && out[a].1 < out[b].1 by {
                    if b == out.len() - 1 {
                        let j = choose|j: int| 0 <= j < s.len() && #[trigger] rest[a] == s[j];
                        assert(s[j].0 != s.last().0 || j == s.len() - 1);
                        assert(j < s.len() - 1 ==> s[j].1 < s.last().1);
                    }
                }
            }
        }
    }
}

/// An entry whose image stays referenced survives eviction with its
/// handle; an image no longer referenced is gone afterwards.
pub proof fn lemma_retained_keeps_live(s: Seq<(u64, u64)>, live: Seq<u64>, image: u64)
    ensures
        live.contains(image) && cache_map(s).dom().contains(image) ==> cache_map(
            retained(s, live),
        ).dom().contains(image) && cache_map(retained(s, live))[image] == cache_map(s)[image],
        !live.contains(image) ==> !cache_map(retained(s, live)).dom().contains(image),
    decreases s.len(),
{
    if s.len() > 0 {
        lemma_retained_keeps_live(s.drop_last(), live, image);
        let rest = retained(s.drop_last(), live);
        if live.contains(s.last().0) {
            assert(retained(s, live) == rest.push(s.last()));
            assert(rest.push(s.last()).drop_last() =~= rest);
            assert(cache_map(retained(s, live)) == cache_map(rest).insert(
                s.last().0,
                s.last().1,
            ));
        }
    }
}

/// The overlay material bind-set cache: one entry per distinct source
/// image, persisting across frames until evicted. This is the subsystem's
/// only cross-frame mutable state; inserts must be serialized, readers
/// then see the cached entry.
pub struct OverlayImageBindGroups {
    pub entries: Vec<(u64, u64)>,
    pub next_id: u64,
}

impl OverlayImageBindGroups {
    /// Entries are uniquely keyed with increasing handles, all below the
    /// fresh-handle counter.
    pub open spec fn wf(self) -> bool {
        &&& cache_wf(self.entries@)
        &&& forall|i: int|
            0 <= i < self.entries@.len() ==> (#[trigger] self.entries@[i]).1 < self.next_id
    }

    /// An empty cache.
    pub fn new() -> (c: OverlayImageBindGroups)
        ensures
            c.wf(),
            c.entries@.len() == 0,
            c.next_id == 0,
    {
        OverlayImageBindGroups { entries: Vec::new(), next_id: 0 }
    }

    /// Returns the bind-set handle cached for an image, creating and
    /// inserting a fresh one only when the image is not cached: the
    /// insert-or-get that every overlay target sharing the image goes
    /// through.
    pub fn get_or_insert(&mut self, image: u64) -> (id: u64)
        requires
            old(self).wf(),
            old(self).next_id < u64::MAX,
        ensures
            final(self).wf(),
            final(self).entries@ == cache_after(old(self).entries@, old(self).next_id, image),
            final(self).next_id == next_after(old(self).entries@, old(self).next_id, image),
            id == cache_result(old(self).entries@, old(self).next_id, image),
            cache_map(final(self).entries@).dom().contains(image),
            cache_map(final(self).entries@)[image] == id,
    {
        let n = self.entries.len();
        let mut i: usize = 0;
        while i < n
            invariant
                *self == *old(self),
                self.wf(),
                n == self.entries@.len(),
                i <= n,
                forall|j: int| 0 <= j < i ==> (#[trigger] self.entries@[j]).0 != image,
            decreases n - i,
        {
            let e = self.entries[i];
            if e.0 == image {
                proof {
                    lemma_cache_map_index(self.entries@, i as int);
                }
                return e.1;
            }
            i = i + 1;
        }
        proof {
            if cache_map(self.entries@).dom().contains(image) {
                lemma_cache_map_contains(self.entries@, image);
            }
        }
        let id = self.next_id;
        self.entries.push((image, id));
        self.next_id = id + 1;
        proof {
            assert(final(self).entries@.drop_last() =~= old(self).entries@);
            lemma_cache_map_index(final(self).entries@, n as int);
        }
        id
    }

    /// Looks up the bind set cached for an image without inserting.
    pub fn get(&self, image: u64) -> (r: Option<u64>)
        requires
            cache_wf(self.entries@),
        ensures
            r is Some <==> cache_map(self.entries@).dom().contains(image),
            r matches Some(id) ==> id == cache_map(self.entries@)[image],
    {
        let n = self.entries.len();
        let mut i: usize = 0;
        while i < n
            invariant
                cache_wf(self.entries@),
                n == self.entries@.len(),
                i <= n,
                forall|j: int| 0 <= j < i ==> (#[trigger] self.entries@[j]).0 != image,
            decreases n - i,
        {
            let e = self.entries[i];
            if e.0 == image {
                proof {
                    lemma_cache_map_index(self.entries@, i as int);
                }
                return Some(e.1);
            }
            i = i + 1;
        }
        proof {
            if cache_map(self.entries@).dom().contains(image) {
                lemma_cache_map_contains(self.entries@, image);
            }
        }
        None
    }

    /// The eviction sweep: drops every bind set whose source image the
    /// host no longer references, keeping the rest with their handles.
    /// Run once per frame with the images seen during extraction.
    pub fn evict_unreferenced(&mut self, live: &Vec<u64>)
        requires
            old(self).wf(),
        ensures
            final(self).wf(),
            final(self).entries@ == retained(old(self).entries@, live@),
            final(self).next_id == old(self).next_id,
    {
        let mut kept: Vec<(u64, u64)> = Vec::new();
        let n = self.entries.len();
        let mut i: usize = 0;
        while i < n
            invariant
                *self == *old(self),
                self.wf(),
                n == self.entries@.len(),
                i <= n,
                kept@ == retained(self.entries@.subrange(0, i as int), live@),
            decreases n - i,
        {
            let e = self.entries[i];
            if image_in(live, e.0) {
                kept.push(e);
            }
            proof {
                let sub = self.entries@.subrange(0, i + 1);
                assert(sub.drop_last() =~= self.entries@.subrange(0, i as int));
                assert(sub.last() == self.entries@[i as int]);
            }
            i = i + 1;
        }
        proof {
            assert(self.entries@.subrange(0, n as int) =~= self.entries@);
            lemma_retained_wf(self.entries@, live@);
        }
        self.entries = kept;
    }

    /// How many bind sets the cache holds.
    pub fn len(&self) -> (n: usize)
        ensures
            n == self.entries@.len(),
    {
        self.entries.len()
    }
}

/// Whether an image list contains an image.
fn image_in(v: &Vec<u64>, x: u64) -> (r: bool)
    ensures
        r <==> v@.contains(x),
{
    let n = v.len();
    let mut i: usize = 0;
    while i < n
        invariant
            n == v@.len(),
            i <= n,
            forall|j: int| 0 <= j < i ==> v@[j] != x,
        decreases n - i,
    {
        if v[i] == x {
            return true;
        }
        i = i + 1;
    }
    false
}

/// Overlay targets that share a source image share one cached bind set:
/// a second insert-or-get for the same image changes nothing and returns
/// the same handle, while a different, uncached image adds exactly one
/// entry of its own.
pub proof fn lemma_overlay_cache_sharing(s: Seq<(u64, u64)>, next: u64, a: u64, b: u64)
    ensures
        cache_after(cache_after(s, next, a), next_after(s, next, a), a) == cache_after(s, next, a),
        cache_result(cache_after(s, next, a), next_after(s, next, a), a) == cache_result(
            s,
            next,
            a,
        ),
        a != b && !cache_map(s).dom().contains(b) ==> cache_after(
            cache_after(s, next, a),
            next_after(s, next, a),
            b,
        ).len() == cache_after(s, next, a).len() + 1,
{
    let s1 = cache_after(s, next, a);
    if cache_map(s).dom().contains(a) {
        assert(s1 == s);
    } else {
        assert(s1.drop_last() =~= s);
        assert(cache_map(s1) == cache_map(s).insert(a, next));
    }
    assert(cache_map(s1).dom().contains(a));
    assert(cache_after(s1, next_after(s, next, a), a) == s1);
    if a != b && !cache_map(s).dom().contains(b) {
        assert(!cache_map(s1).dom().contains(b));
    }
}

} // verus!
