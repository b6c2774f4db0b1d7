//! Tiles, tile identity, the bounded tile cache and its eviction policy.

use vstd::prelude::*;

use crate::frac::FracRect;

verus! {

/// Counter whose change signals that the required tiles must be recomputed.
pub struct TileModState(pub u32);

impl TileModState {
    pub fn new() -> (r: TileModState)
        ensures
            r.0 == 0,
    {
        TileModState(0)
    }

    pub fn invalidate(&mut self)
        ensures
            final(self).0 == old(self).0.wrapping_add(1),
    {
        self.0 = self.0.wrapping_add(1);
    }
}

/// Counter whose change signals that the cache should be pruned.
pub struct TilePruneState(pub u32);

impl TilePruneState {
    pub fn new() -> (r: TilePruneState)
        ensures
            r.0 == 0,
    {
        TilePruneState(0)
    }

    pub fn invalidate(&mut self)
        ensures
            final(self).0 == old(self).0.wrapping_add(1),
    {
        self.0 = self.0.wrapping_add(1);
    }
}

/// Identity of one cell of a level's regular grid: column `x`, row `y`,
/// level `z`. Two indices are equal exactly when all three components match.
#[derive(Debug, Clone, Copy, PartialEq, Eq, Structural, Hash)]
pub struct TileIndex {
    pub x: u32,
    pub y: u32,
    pub z: u32,
}

impl TileIndex {
    pub fn new(x: u32, y: u32, z: u32) -> (r: TileIndex)
        ensures
            r == (TileIndex { x, y, z }),
    {
        TileIndex { x, y, z }
    }

    pub fn level(&self) -> (r: usize)
        ensures
            r == self.z as usize,
    {
        self.z as usize
    }
}

/// An inclusive range of tile indices along one axis.
#[derive(Debug, Clone, Copy, PartialEq, Eq, Structural)]
pub struct TileRange {
    pub min: u32,
    pub max: u32,
}

impl TileRange {
    pub fn new(min: u32, max: u32) -> (r: TileRange)
        ensures
            r == (TileRange { min, max }),
    {
        TileRange { min, max }
    }

    pub open spec fn spec_contains(self, v: u32) -> bool {
        self.min <= v <= self.max
    }

    pub fn contains(&self, v: u32) -> (r: bool)
        ensures
            r == self.spec_contains(v),
    {
        self.min <= v && v <= self.max
    }
}

/// One tile of the image: its grid identity, its bounding rectangle in
/// image-pixel space, and the corresponding rectangle in world space.
#[derive(Debug, Clone, Copy, PartialEq, Eq, Structural)]
pub struct Tile {
    pub index: TileIndex,
    pub image_position: FracRect,
    pub world_position: FracRect,
}

impl Tile {
    pub fn new(index: TileIndex, image_position: FracRect, world_position: FracRect) -> (r: Tile)
        ensures
            r == (Tile { index, image_position, world_position }),
    {
        Tile { index, image_position, world_position }
    }
}

/// The load status of one tile's payload, as the asset-loading collaborator
/// reports it.
#[derive(Debug, Clone, Copy, PartialEq, Eq, Structural)]
pub enum TileLoadStatus {
    NotLoaded,
    Loading,
    Loaded,
    Failed,
}

/// One cache entry: a tile's identity, the handle of its visual resource,
/// the time it was last observed visible, and whether its payload has
/// finished loading.
#[derive(Debug, Clone, Copy, PartialEq, Eq, Structural)]
pub struct TileCacheItem {
    pub index: TileIndex,
    pub handle: u64,
    pub last_visible_micros: u64,
    pub loaded: bool,
}

impl TileCacheItem {
    pub fn new(index: TileIndex, handle: u64) -> (r: TileCacheItem)
        ensures
            r == (TileCacheItem { index, handle, last_visible_micros: 0, loaded: false }),
    {
        TileCacheItem { index, handle, last_visible_micros: 0, loaded: false }
    }
}

/// Whether a cached tile lies outside every protected viewport range.
///
/// `ranges` holds, for each level from the lowest resolution up to the
/// active one, the required column and row ranges for the current viewport,
/// or nothing where they could not be computed. A tile of a level beyond the
/// list is always out of view; a tile of a level without computed ranges is
/// never out of view; otherwise the tile is out of view exactly when its
/// column or row falls outside the level's ranges.
pub open spec fn out_of_view(idx: TileIndex, ranges: Seq<Option<(TileRange, TileRange)>>) -> bool {
    if idx.z >= ranges.len() {
        true
    } else {
        match ranges[idx.z as int] {
            Option::None => false,
            Option::Some(r) => !(r.0.spec_contains(idx.x) && r.1.spec_contains(idx.y)),
        }
    }
}

fn is_out_of_view(idx: TileIndex, ranges: &Vec<Option<(TileRange, TileRange)>>) -> (r: bool)
    ensures
        r == out_of_view(idx, ranges@),
{
    if idx.z as usize >= ranges.len() {
        true
    } else {
        match &ranges[idx.z as usize] {
            Option::None => false,
            Option::Some(r) => !(r.0.contains(idx.x) && r.1.contains(idx.y)),
        }
    }
}

/// The bounded associative store from tile identity to the tile's visual
/// resource and recency metadata; owner of the eviction policy.
pub struct TileCache {
    entries: Vec<TileCacheItem>,
}

impl View for TileCache {
    type V = Seq<TileCacheItem>;

    closed spec fn view(&self) -> Seq<TileCacheItem> {
        self.entries@
    }
}

/// Each tile identity appears at most once in an entry list.
pub open spec fn entries_wf(s: Seq<TileCacheItem>) -> bool {
    forall|i: int, j: int|
        0 <= i < j < s.len() ==> (#[trigger] s[i]).index != (#[trigger] s[j]).index
}

/// How many entries of the list carry a loaded payload.
pub open spec fn loaded_count(s: Seq<TileCacheItem>) -> int {
    s.filter(|e: TileCacheItem| e.loaded).len() as int
}

/// How many entries of the list carry a payload still in flight.
pub open spec fn unloaded_count(s: Seq<TileCacheItem>) -> int {
    s.filter(|e: TileCacheItem| !e.loaded).len() as int
}

/// Appending one entry raises exactly one of the two counts.
proof fn lemma_counts_push(s: Seq<TileCacheItem>, e: TileCacheItem)
    ensures
        loaded_count(s.push(e)) == loaded_count(s) + (if e.loaded {
            1int
        } else {
            0int
        }),
        unloaded_count(s.push(e)) == unloaded_count(s) + (if e.loaded {
            0int
        } else {
            1int
        }),
{
    reveal(Seq::filter);
    assert(s.push(e).drop_last() =~= s);
    assert(s.push(e).last() == e);
}

/// The empty list holds no entries of either kind.
proof fn lemma_counts_empty()
    ensures
        loaded_count(Seq::<TileCacheItem>::empty()) == 0,
        unloaded_count(Seq::<TileCacheItem>::empty()) == 0,
{
    reveal(Seq::filter);
}

impl TileCache {
    /// Each tile identity appears at most once.
    pub open spec fn wf(self) -> bool {
        entries_wf(self@)
    }

    /// Whether the cache holds an entry for this tile identity.
    pub open spec fn spec_contains(self, idx: TileIndex) -> bool {
        exists|i: int| 0 <= i < self@.len() && (#[trigger] self@[i]).index == idx
    }

    pub fn new() -> (r: TileCache)
        ensures
            r@ == Seq::<TileCacheItem>::empty(),
            r.wf(),
    {
        TileCache { entries: Vec::new() }
    }

    pub fn len(&self) -> (r: usize)
        ensures
            r == self@.len(),
    {
        self.entries.len()
    }

    /// The entry at a position, for inspection.
    pub fn entry_at(&self, i: usize) -> (r: TileCacheItem)
        requires
            i < self@.len(),
        ensures
            r == self@[i as int],
    {
        self.entries[i]
    }

    pub fn clear(&mut self)
        ensures
            final(self)@ == Seq::<TileCacheItem>::empty(),
            final(self).wf(),
    {
        self.entries.clear();
    }

    /// The position of the entry for this tile identity, if any.
    fn position_of(&self, index: &TileIndex) -> (r: Option<usize>)
        ensures
            match r {
                Option::Some(i) => i < self@.len() && self@[i as int].index == *index,
                Option::None => !self.spec_contains(*index),
            },
    {
        let mut i: usize = 0;
        while i < self.entries.len()
            invariant
                0 <= i <= self@.len(),
                forall|j: int| 0 <= j < i ==> (#[trigger] self@[j]).index != *index,
            decreases self@.len() - i,
        {
            if self.entries[i].index == *index {
                return Option::Some(i);
            }
            i = i + 1;
        }
        Option::None
    }

    pub fn contains(&self, index: &TileIndex) -> (r: bool)
        ensures
            r == self.spec_contains(*index),
    {
        self.position_of(index).is_some()
    }

    /// Insert the entry for a tile identity not yet cached.
    pub fn insert(&mut self, item: TileCacheItem)
        requires
            !old(self).spec_contains(item.index),
            old(self).wf(),
        ensures
            final(self)@ == old(self)@.push(item),
            final(self).wf(),
    {
        self.entries.push(item);
        proof {
            assert forall|p: int, q: int| 0 <= p < q < self@.len() implies (
            #[trigger] self@[p]).index != (#[trigger] self@[q]).index by {
                if q == self@.len() - 1 {
                    assert(self@[p] == old(self)@[p]);
                    assert(old(self)@[p].index != item.index);
                } else {
                    assert(self@[p] == old(self)@[p] && self@[q] == old(self)@[q]);
                }
            }
        }
    }

    /// Drop the entry for this tile identity, if one is cached. Every other
    /// entry stays, in order.
    pub fn remove(&mut self, index: &TileIndex)
        requires
            old(self).wf(),
        ensures
            final(self).wf(),
            !final(self).spec_contains(*index),
            forall|e: TileCacheItem|
                #[trigger] final(self)@.contains(e) <==> old(self)@.contains(e) && e.index
                    != *index,
            final(self)@.len() == old(self)@.len() - (if old(self).spec_contains(*index) {
                1int
            } else {
                0int
            }),
    {
        match self.position_of(index) {
            Option::Some(i) => {
                self.entries.remove(i);
                proof {
                    lemma_remove_keeps_others(old(self)@, i as int);
                }
            },
            Option::None => {
                proof {
                    assert forall|e: TileCacheItem|
                        #[trigger] self@.contains(e) implies e.index != *index by {
                        let k = choose|k: int| 0 <= k < self@.len() && self@[k] == e;
                        assert(self@[k].index != *index);
                    }
                }
            },
        }
    }

    /// Record that this tile's payload finished loading.
    pub fn mark_loaded(&mut self, index: &TileIndex)
        ensures
            final(self)@.len() == old(self)@.len(),
            forall|i: int|
                0 <= i < old(self)@.len() ==> #[trigger] final(self)@[i] == (if old(
                    self,
                )@[i].index == *index {
                    TileCacheItem { loaded: true, ..old(self)@[i] }
                } else {
                    old(self)@[i]
                }),
    {
        let mut i: usize = 0;
        while i < self.entries.len()
            invariant
                i <= self@.len(),
                self@.len() == old(self)@.len(),
                forall|j: int|
                    0 <= j < i ==> #[trigger] self@[j] == (if old(self)@[j].index == *index {
                        TileCacheItem { loaded: true, ..old(self)@[j] }
                    } else {
                        old(self)@[j]
                    }),
                forall|j: int| i <= j < self@.len() ==> #[trigger] self@[j] == old(self)@[j],
            decreases self@.len() - i,
        {
            if self.entries[i].index == *index {
                let e = self.entries[i];
                self.entries.set(i, TileCacheItem { loaded: true, ..e });
            }
            i = i + 1;
        }
    }

    /// Record that every cached tile of the active level is visible now, and
    /// report whether any tile of another level is cached (those become
    /// eviction candidates for the prune pass).
    pub fn refresh(&mut self, active_level: u32, now_micros: u64) -> (any_other: bool)
        ensures
            final(self)@.len() == old(self)@.len(),
            forall|i: int|
                0 <= i < old(self)@.len() ==> #[trigger] final(self)@[i] == (if old(
                    self,
                )@[i].index.z == active_level {
                    TileCacheItem { last_visible_micros: now_micros, ..old(self)@[i] }
                } else {
                    old(self)@[i]
                }),
            any_other == exists|i: int|
                0 <= i < old(self)@.len() && (#[trigger] old(self)@[i]).index.z != active_level,
    {
        let mut any_other = false;
        let mut i: usize = 0;
        while i < self.entries.len()
            invariant
                i <= self@.len(),
                self@.len() == old(self)@.len(),
                forall|j: int|
                    0 <= j < i ==> #[trigger] self@[j] == (if old(self)@[j].index.z
                        == active_level {
                        TileCacheItem { last_visible_micros: now_micros, ..old(self)@[j] }
                    } else {
                        old(self)@[j]
                    }),
                forall|j: int| i <= j < self@.len() ==> #[trigger] self@[j] == old(self)@[j],
                any_other == exists|j: int|
                    0 <= j < i && (#[trigger] old(self)@[j]).index.z != active_level,
            decreases self@.len() - i,
        {
            let e = self.entries[i];
            if e.index.z == active_level {
                self.entries.set(i, TileCacheItem { last_visible_micros: now_micros, ..e });
            } else {
                any_other = true;
            }
            i = i + 1;
        }
        any_other
    }

    /// The required tiles that are not cached yet: the caller requests their
    /// payloads and inserts an entry for each.
    pub fn missing_tiles(&self, required: &Vec<Tile>) -> (r: Vec<Tile>)
        ensures
            forall|j: int|
                0 <= j < required@.len() && !self.spec_contains(
                    (#[trigger] required@[j]).index,
                ) ==> r@.contains(required@[j]),
            forall|k: int|
                0 <= k < r@.len() ==> required@.contains(#[trigger] r@[k]) && !self.spec_contains(
                    r@[k].index,
                ),
    {
        let mut r: Vec<Tile> = Vec::new();
        let mut j: usize = 0;
        while j < required.len()
            invariant
                j <= required@.len(),
                forall|m: int|
                    0 <= m < j && !self.spec_contains((#[trigger] required@[m]).index)
                        ==> r@.contains(required@[m]),
                forall|k: int|
                    0 <= k < r@.len() ==> required@.contains(#[trigger] r@[k])
                        && !self.spec_contains(r@[k].index),
            decreases required@.len() - j,
        {
            let t = required[j];
            if !self.contains(&t.index) {
                let ghost r_prev = r@;
                r.push(t);
                proof {
                    assert(r@[r@.len() - 1] == t);
                    assert forall|m: int|
                        0 <= m < j + 1 && !self.spec_contains(
                            (#[trigger] required@[m]).index,
                        ) implies r@.contains(required@[m]) by {
                        if m == j {
                            assert(r@[r@.len() - 1] == required@[m]);
                        } else {
                            let k = choose|k: int|
                                0 <= k < r_prev.len() && r_prev[k] == required@[m];
                            assert(r@[k] == required@[m]);
                        }
                    }
                }
            }
            j = j + 1;
        }
        r
    }

    /// React to one tile's reported load status: a loaded payload is recorded,
    /// a failed one drops the entry so a later pass re-requests the tile.
    /// Returns whether the required tiles must be recomputed.
    pub fn on_load_status(&mut self, index: &TileIndex, status: TileLoadStatus) -> (invalidate:
        bool)
        requires
            old(self).wf(),
        ensures
            final(self).wf(),
            invalidate == (status == TileLoadStatus::Loaded || status == TileLoadStatus::Failed),
            status == TileLoadStatus::Failed ==> !final(self).spec_contains(*index)
                && (forall|e: TileCacheItem|
                    #[trigger] final(self)@.contains(e) <==> old(self)@.contains(e)
                        && e.index != *index),
            status == TileLoadStatus::Loaded ==> final(self)@.len() == old(self)@.len()
                && (forall|i: int|
                    0 <= i < old(self)@.len() ==> #[trigger] final(self)@[i]
                        == (if old(self)@[i].index == *index {
                            TileCacheItem { loaded: true, ..old(self)@[i] }
                        } else {
                            old(self)@[i]
                        })),
            status == TileLoadStatus::NotLoaded || status == TileLoadStatus::Loading
                ==> final(self)@ == old(self)@,
    {
        match status {
            TileLoadStatus::Loaded => {
                self.mark_loaded(index);
                proof {
                    lemma_same_indices_wf(old(self)@, self@);
                }
                true
            },
            TileLoadStatus::Failed => {
                self.remove(index);
                true
            },
            _ => false,
        }
    }
}

impl TileCache {
    /// Prune the cache down toward `budget` when it grew beyond it.
    ///
    /// A cached tile is an eviction candidate exactly when it is out of view
    /// for its level (see `out_of_view`). Candidates whose payload never
    /// finished loading are dropped unconditionally; of the loaded
    /// candidates, the least recently visible are dropped until the excess
    /// over the budget is gone or no candidate remains. A tile inside its
    /// level's required ranges is never evicted, so the cache may stay over
    /// budget when candidates are scarce — but then only protected tiles
    /// remain. Returns the evicted entries so their resources can be
    /// released.
    pub fn prune(
        &mut self,
        budget: usize,
        ranges: &Vec<Option<(TileRange, TileRange)>>,
    ) -> (evicted: Vec<TileCacheItem>)
        requires
            old(self).wf(),
        ensures
            final(self).wf(),
            final(self)@.len() + evicted@.len() == old(self)@.len(),
            forall|e: TileCacheItem|
                #[trigger] final(self)@.contains(e) ==> old(self)@.contains(e),
            forall|e: TileCacheItem|
                #[trigger] evicted@.contains(e) ==> old(self)@.contains(e) && out_of_view(
                    e.index,
                    ranges@,
                ),
            forall|e: TileCacheItem|
                old(self)@.contains(e) && !out_of_view(e.index, ranges@)
                    ==> final(self)@.contains(e),
            forall|e: TileCacheItem|
                #[trigger] old(self)@.contains(e) ==> final(self)@.contains(e)
                    || evicted@.contains(e),
            old(self)@.len() <= budget ==> final(self)@ == old(self)@ && evicted@.len() == 0,
            old(self)@.len() > budget ==> (forall|e: TileCacheItem|
                old(self)@.contains(e) && out_of_view(e.index, ranges@) && !e.loaded
                    ==> evicted@.contains(e)),
            final(self)@.len() > budget ==> (forall|e: TileCacheItem|
                #[trigger] final(self)@.contains(e) ==> !out_of_view(e.index, ranges@)),
            forall|e1: TileCacheItem, e2: TileCacheItem|
                #[trigger] evicted@.contains(e1) && e1.loaded
                    && #[trigger] final(self)@.contains(e2) && e2.loaded
                    && out_of_view(e2.index, ranges@)
                    ==> e1.last_visible_micros <= e2.last_visible_micros,
            loaded_count(evicted@) <= vstd::math::max(
                0,
                old(self)@.len() - budget - unloaded_count(evicted@),
            ),
    {
        let mut evicted: Vec<TileCacheItem> = Vec::new();
        proof {
            lemma_counts_empty();
            assert(evicted@ =~= Seq::<TileCacheItem>::empty());
        }
        if self.entries.len() <= budget {
            return evicted;
        }
        let mut excess = self.entries.len() - budget;

        // First pass: drop every out-of-view entry whose payload is still in
        // flight; dropping an unfinished request costs nothing.
        let mut j: usize = 0;
        while j < self.entries.len()
            invariant
                entries_wf(self@),
                j <= self@.len(),
                self@.len() + evicted@.len() == old(self)@.len(),
                forall|k: int|
                    0 <= k < j ==> !(out_of_view((#[trigger] self@[k]).index, ranges@)
                        && !self@[k].loaded),
                forall|e: TileCacheItem| #[trigger] self@.contains(e) ==> old(self)@.contains(e),
                forall|e: TileCacheItem|
                    #[trigger] evicted@.contains(e) ==> old(self)@.contains(e) && out_of_view(
                        e.index,
                        ranges@,
                    ) && !e.loaded,
                forall|e: TileCacheItem|
                    #[trigger] old(self)@.contains(e) ==> self@.contains(e) || evicted@.contains(
                        e,
                    ),
                excess + evicted@.len() >= old(self)@.len() - budget,
                loaded_count(evicted@) == 0,
                unloaded_count(evicted@) == evicted@.len(),
                excess == vstd::math::max(0, old(self)@.len() - budget - evicted@.len()),
            decreases self@.len() - j,
        {
            let e = self.entries[j];
            assert(self@.contains(e));
            if is_out_of_view(e.index, ranges) && !e.loaded {
                let ghost prev = self@;
                let ghost ev_prev = evicted@;
                self.entries.remove(j);
                evicted.push(e);
                if excess > 0 {
                    excess = excess - 1;
                }
                proof {
                    lemma_remove_keeps_others(prev, j as int);
                    assert(evicted@[evicted@.len() - 1] == e);
                    assert(evicted@.subrange(0, evicted@.len() - 1) =~= ev_prev);
                    lemma_prune_step(prev, self@, evicted@, old(self)@, e);
                    assert(evicted@ =~= ev_prev.push(e));
                    lemma_counts_push(ev_prev, e);
                }
            } else {
                j = j + 1;
            }
        }

        // Second pass: among the remaining candidates — all loaded now —
        // evict the least recently visible first, until the excess is gone
        // or no candidate remains.
        let mut exhausted = false;
        while excess > 0 && !exhausted
            invariant
                entries_wf(self@),
                self@.len() + evicted@.len() == old(self)@.len(),
                forall|k: int|
                    0 <= k < self@.len() ==> !(out_of_view((#[trigger] self@[k]).index, ranges@)
                        && !self@[k].loaded),
                forall|e: TileCacheItem| #[trigger] self@.contains(e) ==> old(self)@.contains(e),
                forall|e: TileCacheItem|
                    #[trigger] evicted@.contains(e) ==> old(self)@.contains(e) && out_of_view(
                        e.index,
                        ranges@,
                    ),
                forall|e: TileCacheItem|
                    #[trigger] old(self)@.contains(e) ==> self@.contains(e) || evicted@.contains(
                        e,
                    ),
                excess + evicted@.len() >= old(self)@.len() - budget,
                loaded_count(evicted@) + excess == vstd::math::max(
                    0,
                    old(self)@.len() - budget - unloaded_count(evicted@),
                ),
                forall|e1: TileCacheItem, e2: TileCacheItem|
                    #[trigger] evicted@.contains(e1) && e1.loaded && #[trigger] self@.contains(e2)
                        && e2.loaded && out_of_view(e2.index, ranges@)
                        ==> e1.last_visible_micros <= e2.last_visible_micros,
                exhausted ==> (forall|k: int|
                    0 <= k < self@.len() ==> !out_of_view((#[trigger] self@[k]).index, ranges@)),
            decreases excess, (if exhausted { 0int } else { 1int }),
        {
            match find_oldest_candidate(&self.entries, ranges) {
                Option::None => {
                    exhausted = true;
                },
                Option::Some(jj) => {
                    let e = self.entries[jj];
                    assert(self@.contains(e));
                    let ghost prev = self@;
                    let ghost ev_prev = evicted@;
                    self.entries.remove(jj);
                    evicted.push(e);
                    excess = excess - 1;
                    proof {
                        lemma_remove_keeps_others(prev, jj as int);
                        assert(evicted@[evicted@.len() - 1] == e);
                        assert(evicted@.subrange(0, evicted@.len() - 1) =~= ev_prev);
                        lemma_prune_step(prev, self@, evicted@, old(self)@, e);
                        assert(evicted@ =~= ev_prev.push(e));
                        lemma_counts_push(ev_prev, e);
                    }
                },
            }
        }
        proof {
            if self@.len() > budget {
                assert(excess == 0 ==> final(self)@.len() <= budget);
                assert forall|e: TileCacheItem| #[trigger] self@.contains(e) implies !out_of_view(
                    e.index,
                    ranges@,
                ) by {
                    let k = choose|k: int| 0 <= k < self@.len() && self@[k] == e;
                }
            }
        }
        evicted
    }
}

/// The position of the least recently visible loaded out-of-view entry, the
/// earliest such position among equally old ones; nothing when no entry is
/// both loaded and out of view.
fn find_oldest_candidate(
    entries: &Vec<TileCacheItem>,
    ranges: &Vec<Option<(TileRange, TileRange)>>,
) -> (r: Option<usize>)
    ensures
        match r {
            Option::Some(b) => b < entries@.len() && out_of_view(entries@[b as int].index, ranges@)
                && entries@[b as int].loaded && (forall|k: int|
                0 <= k < entries@.len() && out_of_view((#[trigger] entries@[k]).index, ranges@)
                    && entries@[k].loaded ==> entries@[b as int].last_visible_micros
                    <= entries@[k].last_visible_micros),
            Option::None => forall|k: int|
                0 <= k < entries@.len() ==> !(out_of_view(
                    (#[trigger] entries@[k]).index,
                    ranges@,
                ) && entries@[k].loaded),
        },
{
    let mut best: Option<usize> = Option::None;
    let mut i: usize = 0;
    while i < entries.len()
        invariant
            i <= entries@.len(),
            match best {
                Option::Some(b) => b < i && out_of_view(entries@[b as int].index, ranges@)
                    && entries@[b as int].loaded && (forall|k: int|
                    0 <= k < i && out_of_view((#[trigger] entries@[k]).index, ranges@)
                        && entries@[k].loaded ==> entries@[b as int].last_visible_micros
                        <= entries@[k].last_visible_micros),
                Option::None => forall|k: int|
                    0 <= k < i ==> !(out_of_view((#[trigger] entries@[k]).index, ranges@)
                        && entries@[k].loaded),
            },
        decreases entries@.len() - i,
    {
        let e = entries[i];
        if is_out_of_view(e.index, ranges) && e.loaded {
            match best {
                Option::None => {
                    best = Option::Some(i);
                },
                Option::Some(b) => {
                    if e.last_visible_micros < entries[b].last_visible_micros {
                        best = Option::Some(i);
                    }
                },
            }
        }
        i = i + 1;
    }
    best
}

/// One eviction step keeps the partition facts: `prev` lost exactly the
/// entry `e` that `evicted` gained.
proof fn lemma_prune_step(
    prev: Seq<TileCacheItem>,
    cur: Seq<TileCacheItem>,
    evicted: Seq<TileCacheItem>,
    orig: Seq<TileCacheItem>,
    e: TileCacheItem,
)
    requires
        entries_wf(prev),
        prev.contains(e),
        forall|x: TileCacheItem| #[trigger] cur.contains(x) <==> prev.contains(x) && x.index != e.index,
        evicted.len() >= 1,
        evicted[evicted.len() - 1] == e,
        forall|x: TileCacheItem| #[trigger] orig.contains(x) ==> prev.contains(x) || evicted.subrange(0, evicted.len() - 1).contains(x),
    ensures
        forall|x: TileCacheItem| #[trigger] cur.contains(x) ==> prev.contains(x),
        evicted.contains(e),
        forall|x: TileCacheItem|
            #[trigger] evicted.contains(x) ==> evicted.subrange(0, evicted.len() - 1).contains(x)
                || x == e,
        forall|x: TileCacheItem| #[trigger] orig.contains(x) ==> cur.contains(x) || evicted.contains(x),
        forall|x: TileCacheItem|
            evicted.subrange(0, evicted.len() - 1).contains(x) ==> #[trigger] evicted.contains(x),
{
    let short = evicted.subrange(0, evicted.len() - 1);
    assert(evicted.contains(e)) by {
        assert(evicted[evicted.len() - 1] == e);
    }
    assert forall|x: TileCacheItem| #[trigger] evicted.contains(x) implies short.contains(x) || x
        == e by {
        let k = choose|k: int| 0 <= k < evicted.len() && evicted[k] == x;
        if k < evicted.len() - 1 {
            assert(short[k] == x);
        }
    }
    assert forall|x: TileCacheItem| short.contains(x) implies #[trigger] evicted.contains(x) by {
        let k = choose|k: int| 0 <= k < short.len() && short[k] == x;
        assert(evicted[k] == x);
    }
    assert forall|x: TileCacheItem| #[trigger] orig.contains(x) implies cur.contains(x)
        || evicted.contains(x) by {
        if prev.contains(x) {
            if x.index == e.index {
                lemma_unique_entry(prev, e, x);
            }
        }
    }
}

/// Under `entries_wf`, an entry is determined by its identity.
proof fn lemma_unique_entry(s: Seq<TileCacheItem>, e: TileCacheItem, x: TileCacheItem)
    requires
        entries_wf(s),
        s.contains(e),
        s.contains(x),
        x.index == e.index,
    ensures
        x == e,
{
    let p = choose|p: int| 0 <= p < s.len() && s[p] == e;
    let q = choose|q: int| 0 <= q < s.len() && s[q] == x;
    if p < q {
        assert(s[p].index != s[q].index);
    } else if q < p {
        assert(s[q].index != s[p].index);
    }
}

/// Removing one position keeps every other element and never adds one.
proof fn lemma_remove_keeps_others(s: Seq<TileCacheItem>, i: int)
    requires
        0 <= i < s.len(),
        forall|p: int, q: int|
            0 <= p < q < s.len() ==> (#[trigger] s[p]).index != (#[trigger] s[q]).index,
    ensures
        forall|e: TileCacheItem|
            #[trigger] s.remove(i).contains(e) <==> s.contains(e) && e.index != s[i].index,
        forall|p: int, q: int|
            0 <= p < q < s.remove(i).len() ==> (#[trigger] s.remove(i)[p]).index != (
            #[trigger] s.remove(i)[q]).index,
        !(exists|k: int| 0 <= k < s.remove(i).len() && (#[trigger] s.remove(i)[k]).index == s[i].index),
{
    let t = s.remove(i);
    assert forall|e: TileCacheItem| #[trigger] t.contains(e) implies s.contains(e) && e.index
        != s[i].index by {
        let k = choose|k: int| 0 <= k < t.len() && t[k] == e;
        if k < i {
            assert(s[k] == e);
            assert(s[k].index != s[i].index);
        } else {
            assert(s[k + 1] == e);
            assert(s[i].index != s[k + 1].index);
        }
    }
    assert forall|e: TileCacheItem| s.contains(e) && e.index != s[i].index implies #[trigger] t
        .contains(e) by {
        let k = choose|k: int| 0 <= k < s.len() && s[k] == e;
        if k < i {
            assert(t[k] == e);
        } else {
            assert(k != i);
            assert(t[k - 1] == e);
        }
    }
    assert forall|p: int, q: int| 0 <= p < q < t.len() implies (#[trigger] t[p]).index != (
    #[trigger] t[q]).index by {
        let sp: int = if p < i {
            p
        } else {
            p + 1
        };
        let sq: int = if q < i {
            q
        } else {
            q + 1
        };
        assert(t[p] == s[sp] && t[q] == s[sq]);
    }
    assert forall|k: int| 0 <= k < t.len() implies (#[trigger] t[k]).index != s[i].index by {
        if k < i {
            assert(t[k] == s[k]);
        } else {
            assert(t[k] == s[k + 1]);
        }
    }
}

/// Two entry lists whose entries carry the same identities position by
/// position are together well formed.
proof fn lemma_same_indices_wf(a: Seq<TileCacheItem>, b: Seq<TileCacheItem>)
    requires
        a.len() == b.len(),
        forall|i: int| 0 <= i < a.len() ==> (#[trigger] b[i]).index == (#[trigger] a[i]).index,
        forall|p: int, q: int|
            0 <= p < q < a.len() ==> (#[trigger] a[p]).index != (#[trigger] a[q]).index,
    ensures
        forall|p: int, q: int|
            0 <= p < q < b.len() ==> (#[trigger] b[p]).index != (#[trigger] b[q]).index,
{
    assert forall|p: int, q: int| 0 <= p < q < b.len() implies (#[trigger] b[p]).index != (
    #[trigger] b[q]).index by {
        assert(b[p].index == a[p].index);
        assert(b[q].index == a[q].index);
    }
}

} // verus!
