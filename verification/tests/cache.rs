//! The tile cache: reconciliation against the required tiles, and the
//! eviction policy of the prune pass.

use tile_pyramid::frac::{Frac, FracPoint, FracRect};
use tile_pyramid::rendering::tile::{
    Tile, TileCache, TileCacheItem, TileIndex, TileLoadStatus, TileRange,
};

fn idx(x: u32, y: u32, z: u32) -> TileIndex {
    TileIndex::new(x, y, z)
}

fn item(x: u32, y: u32, z: u32, handle: u64, last_visible: u64, loaded: bool) -> TileCacheItem {
    TileCacheItem {
        index: idx(x, y, z),
        handle,
        last_visible_micros: last_visible,
        loaded,
    }
}

fn unit_rect() -> FracRect {
    FracRect {
        min: FracPoint { x: Frac { num: 0, den: 1 }, y: Frac { num: 0, den: 1 } },
        max: FracPoint { x: Frac { num: 1, den: 1 }, y: Frac { num: 1, den: 1 } },
    }
}

fn indices(items: &[TileCacheItem]) -> Vec<TileIndex> {
    items.iter().map(|e| e.index).collect()
}

fn cached_indices(cache: &TileCache) -> Vec<TileIndex> {
    let mut r = Vec::new();
    for i in 0..cache.len() {
        r.push(cache.entry_at(i).index);
    }
    r
}

#[test]
fn missing_tiles_reports_only_the_absent_ones() {
    let mut cache = TileCache::new();
    cache.insert(item(0, 0, 1, 10, 0, false));

    let required = vec![
        Tile::new(idx(0, 0, 1), unit_rect(), unit_rect()),
        Tile::new(idx(1, 0, 1), unit_rect(), unit_rect()),
    ];
    let missing = cache.missing_tiles(&required);

    assert_eq!(missing.len(), 1);
    assert_eq!(missing[0].index, idx(1, 0, 1));
}

#[test]
fn refresh_marks_the_active_level_visible() {
    let mut cache = TileCache::new();
    cache.insert(item(0, 0, 1, 10, 0, true));
    cache.insert(item(0, 0, 2, 11, 0, true));

    let any_other = cache.refresh(2, 777);

    assert!(any_other);
    assert_eq!(cache.entry_at(0).last_visible_micros, 0);
    assert_eq!(cache.entry_at(1).last_visible_micros, 777);

    let any_other = cache.refresh(3, 888);
    assert!(any_other);
    assert_eq!(cache.entry_at(0).last_visible_micros, 0);
    assert_eq!(cache.entry_at(1).last_visible_micros, 777);
}

#[test]
fn a_failed_load_drops_the_entry_for_a_retry() {
    let mut cache = TileCache::new();
    cache.insert(item(3, 4, 1, 10, 0, false));

    let invalidate = cache.on_load_status(&idx(3, 4, 1), TileLoadStatus::Loading);
    assert!(!invalidate);
    assert_eq!(cache.len(), 1);

    let invalidate = cache.on_load_status(&idx(3, 4, 1), TileLoadStatus::Loaded);
    assert!(invalidate);
    assert!(cache.entry_at(0).loaded);

    let invalidate = cache.on_load_status(&idx(3, 4, 1), TileLoadStatus::Failed);
    assert!(invalidate);
    assert_eq!(cache.len(), 0);
}

#[test]
fn prune_leaves_a_cache_within_budget_alone() {
    let mut cache = TileCache::new();
    cache.insert(item(0, 0, 0, 1, 5, true));
    cache.insert(item(1, 0, 0, 2, 6, true));

    let evicted = cache.prune(2, &vec![None]);

    assert_eq!(evicted.len(), 0);
    assert_eq!(cache.len(), 2);
}

#[test]
fn prune_drops_unloaded_candidates_unconditionally() {
    let mut cache = TileCache::new();
    // Level 0 is protected by its ranges; level 5 is beyond the active level.
    let ranges = vec![Some((TileRange::new(0, 1), TileRange::new(0, 1)))];
    cache.insert(item(0, 0, 0, 1, 5, true));
    cache.insert(item(7, 7, 5, 2, 9, false));
    cache.insert(item(8, 8, 5, 3, 1, false));

    let evicted = cache.prune(2, &ranges);

    // Both in-flight out-of-view tiles go, even though one would have been
    // enough to reach the budget.
    assert_eq!(evicted.len(), 2);
    assert!(indices(&evicted).contains(&idx(7, 7, 5)));
    assert!(indices(&evicted).contains(&idx(8, 8, 5)));
    assert_eq!(cached_indices(&cache), vec![idx(0, 0, 0)]);
}

#[test]
fn prune_evicts_the_least_recently_visible_loaded_candidates_first() {
    let mut cache = TileCache::new();
    let ranges = vec![Some((TileRange::new(0, 0), TileRange::new(0, 0)))];
    cache.insert(item(0, 0, 0, 1, 50, true));
    cache.insert(item(5, 5, 3, 2, 30, true));
    cache.insert(item(6, 6, 3, 3, 10, true));
    cache.insert(item(7, 7, 3, 4, 20, true));

    let evicted = cache.prune(2, &ranges);

    // The two oldest out-of-view tiles leave; the protected tile stays.
    assert_eq!(evicted.len(), 2);
    assert_eq!(evicted[0].index, idx(6, 6, 3));
    assert_eq!(evicted[1].index, idx(7, 7, 3));
    assert_eq!(cache.len(), 2);
    assert!(cached_indices(&cache).contains(&idx(0, 0, 0)));
    assert!(cached_indices(&cache).contains(&idx(5, 5, 3)));
}

#[test]
fn prune_never_evicts_a_tile_in_the_required_set() {
    let mut cache = TileCache::new();
    // Everything cached is inside its level's required ranges.
    let ranges = vec![
        Some((TileRange::new(0, 3), TileRange::new(0, 3))),
        Some((TileRange::new(0, 3), TileRange::new(0, 3))),
    ];
    for x in 0..4u32 {
        cache.insert(item(x, 0, 0, x as u64, x as u64, true));
        cache.insert(item(x, 1, 1, 10 + x as u64, x as u64, true));
    }

    let evicted = cache.prune(3, &ranges);

    // The cache stays over budget rather than evict a protected tile.
    assert_eq!(evicted.len(), 0);
    assert_eq!(cache.len(), 8);
}

#[test]
fn a_level_without_computed_ranges_is_protected() {
    let mut cache = TileCache::new();
    let ranges = vec![None, Some((TileRange::new(0, 0), TileRange::new(0, 0)))];
    cache.insert(item(9, 9, 0, 1, 1, true));
    cache.insert(item(9, 9, 1, 2, 2, true));

    let evicted = cache.prune(1, &ranges);

    // Level 0 has no computed ranges and is not a candidate; level 1's tile
    // is outside its ranges and leaves.
    assert_eq!(evicted.len(), 1);
    assert_eq!(evicted[0].index, idx(9, 9, 1));
    assert_eq!(cached_indices(&cache), vec![idx(9, 9, 0)]);
}
