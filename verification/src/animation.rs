//! Animation records and the maps, shared between the workers, that file
//! them under the node they belong to.

use crate::dom::OpaqueNode;
use parking_lot::RwLock;
use std::collections::HashMap;
use vstd::prelude::*;

verus! {

/// One animation that style recalculation has started on a node.
#[derive(Clone, Copy, PartialEq, Eq, Debug, Structural)]
pub struct Animation {
    /// The node that is animated.
    pub node: OpaqueNode,
    /// The number under which the animation scheduler knows this animation.
    pub id: u64,
}

/// The records that `records` files under `node`, in the order in which they
/// were added; none, where the node has no entry.
pub open spec fn records_of(
    records: Map<OpaqueNode, Seq<Animation>>,
    node: OpaqueNode,
) -> Seq<Animation> {
    if records.contains_key(node) {
        records[node]
    } else {
        Seq::empty()
    }
}

/// `records` with `animation` added behind the records of its node.
pub open spec fn with_record(
    records: Map<OpaqueNode, Seq<Animation>>,
    animation: Animation,
) -> Map<OpaqueNode, Seq<Animation>> {
    records.insert(animation.node, records_of(records, animation.node).push(animation))
}

/// Every entry holds at least one record, and every record is filed under
/// its own node.
pub open spec fn well_filed(records: Map<OpaqueNode, Seq<Animation>>) -> bool {
    forall|node: OpaqueNode| #[trigger]
        records.contains_key(node) ==> {
            &&& records[node].len() > 0
            &&& forall|i: int|
                0 <= i < records[node].len() ==> (#[trigger] records[node][i]).node == node
        }
}

/// Adding a record keeps a map well filed.
pub proof fn lemma_with_record_well_filed(
    records: Map<OpaqueNode, Seq<Animation>>,
    animation: Animation,
)
    requires
        well_filed(records),
    ensures
        well_filed(with_record(records, animation)),
{
    let next = with_record(records, animation);
    assert forall|node: OpaqueNode| #[trigger] next.contains_key(node) implies {
        &&& next[node].len() > 0
        &&& forall|i: int| 0 <= i < next[node].len() ==> (#[trigger] next[node][i]).node == node
    } by {
        if node != animation.node {
            assert(records.contains_key(node));
        }
    }
}

/// No record is lost when another is added: what a node held before is still
/// there, in the same order, at the front of what it holds afterwards, and the
/// added record is the last of its own node.
pub proof fn lemma_with_record_keeps_records(
    records: Map<OpaqueNode, Seq<Animation>>,
    animation: Animation,
    node: OpaqueNode,
)
    ensures
        records_of(records, node).is_prefix_of(records_of(with_record(records, animation), node)),
        records_of(with_record(records, animation), animation.node).last() == animation,
        node != animation.node ==> records_of(with_record(records, animation), node)
            == records_of(records, node),
{
    let next = with_record(records, animation);
    if node == animation.node {
        assert(records_of(next, node) == records_of(records, node).push(animation));
        assert(records_of(next, node).subrange(0, records_of(records, node).len() as int)
            =~= records_of(records, node));
    } else {
        assert(records_of(next, node) =~= records_of(records, node));
    }
}

/// Two writers that add records for different nodes lose nothing to each
/// other: whichever of them comes first, the map ends up the same, and it
/// holds both records.
pub proof fn lemma_records_of_different_nodes_commute(
    records: Map<OpaqueNode, Seq<Animation>>,
    first: Animation,
    second: Animation,
)
    requires
        first.node != second.node,
    ensures
        with_record(with_record(records, first), second) == with_record(
            with_record(records, second),
            first,
        ),
        records_of(with_record(with_record(records, first), second), first.node) == records_of(
            records,
            first.node,
        ).push(first),
        records_of(with_record(with_record(records, first), second), second.node) == records_of(
            records,
            second.node,
        ).push(second),
{
    let one_way = with_record(with_record(records, first), second);
    let other_way = with_record(with_record(records, second), first);
    assert(one_way =~= other_way);
}

/// The animations of a document, by node.
pub struct AnimationMap {
    records: HashMap<usize, Vec<Animation>>,
}

impl View for AnimationMap {
    type V = Map<OpaqueNode, Seq<Animation>>;

    closed spec fn view(&self) -> Map<OpaqueNode, Seq<Animation>> {
        Map::new(
            |node: OpaqueNode| self.records@.contains_key(node.0),
            |node: OpaqueNode| self.records@[node.0]@,
        )
    }
}

impl AnimationMap {
    #[verifier::type_invariant]
    spec fn filed_by_node(self) -> bool {
        well_filed(self@)
    }

    /// A map without records.
    pub fn new() -> (map: Self)
        ensures
            map@ == Map::<OpaqueNode, Seq<Animation>>::empty(),
    {
        let map = AnimationMap { records: HashMap::new() };
        assert(map@ =~= Map::<OpaqueNode, Seq<Animation>>::empty());
        map
    }

    /// Adds `animation` behind the records of its node.
    pub fn insert(&mut self, animation: Animation)
        ensures
            final(self)@ == with_record(old(self)@, animation),
            well_filed(old(self)@),
            well_filed(final(self)@),
    {
        proof {
            use_type_invariant(&*self);
        }
        let key: usize = animation.node.0;
        let mut records: HashMap<usize, Vec<Animation>> = HashMap::new();
        std::mem::swap(&mut self.records, &mut records);
        let mut list: Vec<Animation> = match records.remove(&key) {
            Some(list) => list,
            None => Vec::new(),
        };
        list.push(animation);
        records.insert(key, list);
        proof {
            let next = AnimationMap { records };
            assert(next@ =~= with_record(old(self)@, animation));
            lemma_with_record_well_filed(old(self)@, animation);
        }
        self.records = records;
    }

    /// The records of `node` in the order in which they were added; none,
    /// where the node has no entry.
    pub fn records(&self, node: OpaqueNode) -> (found: Vec<Animation>)
        ensures
            found@ == records_of(self@, node),
            well_filed(self@),
    {
        proof {
            use_type_invariant(self);
        }
        match self.records.get(&node.0) {
            Some(list) => {
                let mut found: Vec<Animation> = Vec::new();
                let mut i: usize = 0;
                while i < list.len()
                    invariant
                        i <= list.len(),
                        found@ == list@.take(i as int),
                    decreases list.len() - i,
                {
                    found.push(list[i]);
                    i = i + 1;
                    assert(found@ =~= list@.take(i as int));
                }
                assert(list@.take(i as int) =~= list@);
                found
            },
            None => Vec::new(),
        }
    }

    /// Takes the records of `node` out of the map.
    pub fn take(&mut self, node: OpaqueNode) -> (taken: Vec<Animation>)
        ensures
            taken@ == records_of(old(self)@, node),
            final(self)@ == old(self)@.remove(node),
            well_filed(old(self)@),
            well_filed(final(self)@),
    {
        proof {
            use_type_invariant(&*self);
        }
        let mut records: HashMap<usize, Vec<Animation>> = HashMap::new();
        std::mem::swap(&mut self.records, &mut records);
        let taken: Vec<Animation> = match records.remove(&node.0) {
            Some(list) => list,
            None => Vec::new(),
        };
        proof {
            let next = AnimationMap { records };
            assert(next@ =~= old(self)@.remove(node));
        }
        self.records = records;
        taken
    }
}

/// parking_lot's `RwLock` is `lock_api::RwLock` over parking_lot's raw lock.
/// The type is carried as it is: nothing is said of what a lock holds, which
/// any thread that takes the lock may change.
#[verifier::external_type_specification]
#[verifier::external_body]
#[verifier::reject_recursive_types(R)]
#[verifier::reject_recursive_types(T)]
pub struct ExRwLock<R, T: ?Sized>(parking_lot::lock_api::RwLock<R, T>);

/// parking_lot's raw reader-writer lock, the first parameter of its `RwLock`.
#[verifier::external_type_specification]
#[verifier::external_body]
pub struct ExRawRwLock(parking_lot::RawRwLock);

/// Shared access to a locked animation map: parking_lot's `RwLockReadGuard`,
/// which gives the lock back when it is dropped.
#[verifier::external_body]
struct AnimationsReadGuard<'a> {
    guard: parking_lot::RwLockReadGuard<'a, AnimationMap>,
}

/// Exclusive access to a locked animation map: parking_lot's
/// `RwLockWriteGuard`, which gives the lock back when it is dropped.
#[verifier::external_body]
struct AnimationsWriteGuard<'a> {
    guard: parking_lot::RwLockWriteGuard<'a, AnimationMap>,
}

/// Calls parking_lot's `RwLock::read`, which waits until no writer holds the
/// lock and then returns shared access. The lock is never poisoned, so the
/// call has no failure to report. A thread that already holds the lock must
/// not call it. Nothing is claimed of the map behind the lock.
#[verifier::external_body]
fn lock_shared<'a>(animations: &'a RwLock<AnimationMap>) -> (guard: AnimationsReadGuard<'a>) {
    AnimationsReadGuard { guard: animations.read() }
}

/// Calls parking_lot's `RwLock::write`, which waits until nobody else holds
/// the lock and then returns exclusive access. The lock is never poisoned, so
/// the call has no failure to report. A thread that already holds the lock
/// must not call it. Nothing is claimed of the map behind the lock.
#[verifier::external_body]
fn lock_exclusive<'a>(animations: &'a RwLock<AnimationMap>) -> (guard: AnimationsWriteGuard<'a>) {
    AnimationsWriteGuard { guard: animations.write() }
}

/// Calls `Deref::deref` of parking_lot's `RwLockReadGuard`: the map behind
/// the lock, for reading. Nothing is claimed of what it holds.
#[verifier::external_body]
fn locked_map<'a, 'b>(guard: &'b AnimationsReadGuard<'a>) -> (map: &'b AnimationMap) {
    &*guard.guard
}

/// Calls `DerefMut::deref_mut` of parking_lot's `RwLockWriteGuard`: the map
/// behind the lock, for writing. Nothing is claimed of what it holds.
#[verifier::external_body]
fn locked_map_mut<'a, 'b>(guard: &'b mut AnimationsWriteGuard<'a>) -> (map: &'b mut AnimationMap) {
    &mut *guard.guard
}

/// Adds `animation` to the locked map, under exclusive access. Other threads
/// may write before and after, so nothing is promised of the map as a whole;
/// [`AnimationMap::insert`] says what the write itself does. The calling
/// thread must not hold the lock already.
pub fn insert_animation(animations: &RwLock<AnimationMap>, animation: Animation) {
    let mut guard = lock_exclusive(animations);
    let map = locked_map_mut(&mut guard);
    map.insert(animation);
}

/// The records that the locked map files under `node` at the time of the
/// call, read under shared access; [`AnimationMap::records`] says what is
/// read. Whatever other threads have written, each record belongs to `node`.
/// The calling thread must not hold the lock already.
pub fn animations_of(animations: &RwLock<AnimationMap>, node: OpaqueNode) -> (found: Vec<
    Animation,
>)
    ensures
        forall|i: int| 0 <= i < found@.len() ==> (#[trigger] found@[i]).node == node,
{
    let guard = lock_shared(animations);
    let map = locked_map(&guard);
    map.records(node)
}

/// Takes the records of `node` out of the locked map, under exclusive
/// access; [`AnimationMap::take`] says what is taken. Whatever other threads
/// have written, each record belongs to `node`. The calling thread must not
/// hold the lock already.
pub fn take_animations(animations: &RwLock<AnimationMap>, node: OpaqueNode) -> (taken: Vec<
    Animation,
>)
    ensures
        forall|i: int| 0 <= i < taken@.len() ==> (#[trigger] taken@[i]).node == node,
{
    let mut guard = lock_exclusive(animations);
    let map = locked_map_mut(&mut guard);
    map.take(node)
}

} // verus!
