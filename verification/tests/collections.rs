use parking_lot::RwLock;
use style_context::animation::animations_of;
use style_context::animation::insert_animation;
use style_context::animation::take_animations;
use style_context::Animation;
use style_context::AnimationMap;
use style_context::OpaqueNode;
use style_context::StyleHandle;
use style_context::StyleSharingCandidateCache;

#[test]
fn opaque_node_gives_its_number() {
    assert_eq!(OpaqueNode(0).id(), 0);
    assert_eq!(OpaqueNode(usize::MAX).id(), usize::MAX);
    assert_eq!(OpaqueNode(4), OpaqueNode(4));
    assert_ne!(OpaqueNode(4), OpaqueNode(5));
}

#[test]
fn new_map_has_no_records() {
    let map = AnimationMap::new();
    assert_eq!(map.records(OpaqueNode(0)), vec![]);
    assert_eq!(map.records(OpaqueNode(usize::MAX)), vec![]);
}

#[test]
fn records_stay_in_the_order_of_their_arrival() {
    let mut map = AnimationMap::new();
    let a = Animation { node: OpaqueNode(1), id: 10 };
    let b = Animation { node: OpaqueNode(2), id: 20 };
    let c = Animation { node: OpaqueNode(1), id: 11 };
    let d = Animation { node: OpaqueNode(1), id: 10 };
    map.insert(a);
    map.insert(b);
    map.insert(c);
    map.insert(d);
    assert_eq!(map.records(OpaqueNode(1)), vec![a, c, d]);
    assert_eq!(map.records(OpaqueNode(2)), vec![b]);
    assert_eq!(map.records(OpaqueNode(3)), vec![]);
}

#[test]
fn records_of_different_nodes_do_not_depend_on_the_order() {
    let a = Animation { node: OpaqueNode(1), id: 10 };
    let b = Animation { node: OpaqueNode(2), id: 20 };
    let mut one_way = AnimationMap::new();
    one_way.insert(a);
    one_way.insert(b);
    let mut other_way = AnimationMap::new();
    other_way.insert(b);
    other_way.insert(a);
    for node in [OpaqueNode(1), OpaqueNode(2), OpaqueNode(3)] {
        assert_eq!(one_way.records(node), other_way.records(node));
    }
    assert_eq!(one_way.records(OpaqueNode(1)), vec![a]);
    assert_eq!(one_way.records(OpaqueNode(2)), vec![b]);
}

#[test]
fn take_removes_the_records_of_one_node() {
    let mut map = AnimationMap::new();
    let a = Animation { node: OpaqueNode(1), id: 10 };
    let b = Animation { node: OpaqueNode(2), id: 20 };
    let c = Animation { node: OpaqueNode(1), id: 11 };
    map.insert(a);
    map.insert(b);
    map.insert(c);
    assert_eq!(map.take(OpaqueNode(1)), vec![a, c]);
    assert_eq!(map.records(OpaqueNode(1)), vec![]);
    assert_eq!(map.records(OpaqueNode(2)), vec![b]);
    assert_eq!(map.take(OpaqueNode(1)), vec![]);
    assert_eq!(map.take(OpaqueNode(9)), vec![]);
    map.insert(a);
    assert_eq!(map.records(OpaqueNode(1)), vec![a]);
}

#[test]
fn locked_map_takes_and_gives_records() {
    let lock = RwLock::new(AnimationMap::new());
    let a = Animation { node: OpaqueNode(7), id: 1 };
    let b = Animation { node: OpaqueNode(7), id: 2 };
    let c = Animation { node: OpaqueNode(8), id: 3 };
    assert_eq!(animations_of(&lock, OpaqueNode(7)), vec![]);
    insert_animation(&lock, a);
    insert_animation(&lock, b);
    insert_animation(&lock, c);
    assert_eq!(animations_of(&lock, OpaqueNode(7)), vec![a, b]);
    assert_eq!(animations_of(&lock, OpaqueNode(8)), vec![c]);
    assert_eq!(take_animations(&lock, OpaqueNode(7)), vec![a, b]);
    assert_eq!(animations_of(&lock, OpaqueNode(7)), vec![]);
    assert_eq!(take_animations(&lock, OpaqueNode(7)), vec![]);
    assert_eq!(animations_of(&lock, OpaqueNode(8)), vec![c]);
    assert!(!lock.is_locked());
    assert_eq!(lock.into_inner().records(OpaqueNode(8)), vec![c]);
}

#[test]
fn new_cache_is_empty() {
    let cache = StyleSharingCandidateCache::new();
    assert_eq!(cache.len(), 0);
    assert_eq!(cache.lookup(0, 0), None);
    assert_eq!(cache.lookup(u64::MAX, u32::MAX), None);
}

#[test]
fn cache_returns_what_was_inserted_in_the_same_pass() {
    let mut cache = StyleSharingCandidateCache::new();
    cache.insert(1, StyleHandle(100), 5);
    cache.insert(2, StyleHandle(200), 5);
    assert_eq!(cache.len(), 2);
    assert_eq!(cache.lookup(1, 5), Some(StyleHandle(100)));
    assert_eq!(cache.lookup(2, 5), Some(StyleHandle(200)));
    assert_eq!(cache.lookup(3, 5), None);
}

#[test]
fn cache_rejects_entries_of_other_passes() {
    let mut cache = StyleSharingCandidateCache::new();
    cache.insert(1, StyleHandle(100), 5);
    assert_eq!(cache.lookup(1, 6), None);
    assert_eq!(cache.lookup(1, 4), None);
    assert_eq!(cache.lookup(1, 0), None);
    assert_eq!(cache.lookup(1, 5), Some(StyleHandle(100)));
    assert_eq!(cache.len(), 1);
}

#[test]
fn cache_replaces_the_entry_of_a_key() {
    let mut cache = StyleSharingCandidateCache::new();
    cache.insert(1, StyleHandle(100), 5);
    cache.insert(1, StyleHandle(101), 5);
    assert_eq!(cache.len(), 1);
    assert_eq!(cache.lookup(1, 5), Some(StyleHandle(101)));
    cache.insert(1, StyleHandle(102), 6);
    assert_eq!(cache.len(), 1);
    assert_eq!(cache.lookup(1, 5), None);
    assert_eq!(cache.lookup(1, 6), Some(StyleHandle(102)));
}

#[test]
fn cleared_cache_is_empty() {
    let mut cache = StyleSharingCandidateCache::new();
    cache.insert(1, StyleHandle(100), 5);
    cache.insert(2, StyleHandle(200), 6);
    cache.clear();
    assert_eq!(cache.len(), 0);
    assert_eq!(cache.lookup(1, 5), None);
    assert_eq!(cache.lookup(2, 6), None);
    cache.insert(2, StyleHandle(201), 7);
    assert_eq!(cache.lookup(2, 7), Some(StyleHandle(201)));
}
