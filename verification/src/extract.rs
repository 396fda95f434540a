//! Which splat assets must be copied into the render world this frame.
//!
//! Asset events of a frame mark assets dirty (added, modified, loaded) or
//! clean (removed, unused); each entity showing a dirty asset then has its
//! points re-extracted, or dropped when the asset holds none.

use vstd::prelude::*;
use crate::buffers::{buffer_action, InstanceBuffer, PendingInstances};

verus! {

/// The identity of an asset, by value: a runtime index (as the 64 bits
/// that carry its generation and slot) or a UUID.
#[derive(Clone, Copy, Debug, PartialEq, Eq, Structural, Hash)]
pub enum AssetKey {
    Index(u64),
    Uuid(u128),
}

/// A change to a splat asset, as reported by the asset system.
#[derive(Clone, Copy, Debug, PartialEq, Eq)]
pub enum AssetChange {
    Added(AssetKey),
    Modified(AssetKey),
    Removed(AssetKey),
    Unused(AssetKey),
    LoadedWithDependencies(AssetKey),
}

impl AssetChange {
    /// The asset the change is about.
    pub open spec fn key(self) -> AssetKey {
        match self {
            AssetChange::Added(k) => k,
            AssetChange::Modified(k) => k,
            AssetChange::Removed(k) => k,
            AssetChange::Unused(k) => k,
            AssetChange::LoadedWithDependencies(k) => k,
        }
    }

    /// Whether the change means the asset's contents must be (re)read.
    pub open spec fn marks_dirty(self) -> bool {
        match self {
            AssetChange::Added(_) => true,
            AssetChange::Modified(_) => true,
            AssetChange::LoadedWithDependencies(_) => true,
            AssetChange::Removed(_) => false,
            AssetChange::Unused(_) => false,
        }
    }

    /// The asset the change is about.
    pub fn asset(&self) -> (k: AssetKey)
        ensures
            k == self.key(),
    {
        match self {
            AssetChange::Added(k) => *k,
            AssetChange::Modified(k) => *k,
            AssetChange::Removed(k) => *k,
            AssetChange::Unused(k) => *k,
            AssetChange::LoadedWithDependencies(k) => *k,
        }
    }

    /// Whether the change means the asset's contents must be (re)read.
    pub fn is_dirtying(&self) -> (b: bool)
        ensures
            b == self.marks_dirty(),
    {
        match self {
            AssetChange::Added(_) => true,
            AssetChange::Modified(_) => true,
            AssetChange::LoadedWithDependencies(_) => true,
            AssetChange::Removed(_) => false,
            AssetChange::Unused(_) => false,
        }
    }
}

/// The dirty set after one change.
pub open spec fn apply_change(dirty: Set<AssetKey>, change: AssetChange) -> Set<AssetKey> {
    if change.marks_dirty() {
        dirty.insert(change.key())
    } else {
        dirty.remove(change.key())
    }
}

/// The dirty set after a batch of changes, taken in order.
pub open spec fn apply_changes(dirty: Set<AssetKey>, changes: Seq<AssetChange>) -> Set<AssetKey>
    decreases changes.len(),
{
    if changes.len() == 0 {
        dirty
    } else {
        apply_change(apply_changes(dirty, changes.drop_last()), changes.last())
    }
}

/// A finite set of asset keys, each held once.
pub struct AssetKeySet {
    keys: Vec<AssetKey>,
}

impl View for AssetKeySet {
    type V = Set<AssetKey>;

    closed spec fn view(&self) -> Set<AssetKey> {
        self.keys@.to_set()
    }
}

impl AssetKeySet {
    /// Each key is held once.
    pub closed spec fn wf(self) -> bool {
        self.keys@.no_duplicates()
    }

    /// The empty set.
    pub fn new() -> (s: Self)
        ensures
            s.wf(),
            s@ == Set::<AssetKey>::empty(),
    {
        let s = AssetKeySet { keys: Vec::new() };
        assert(s.keys@.to_set() =~= Set::<AssetKey>::empty());
        s
    }

    /// Whether `k` is in the set.
    pub fn contains(&self, k: &AssetKey) -> (b: bool)
        ensures
            b == self@.contains(*k),
    {
        let n: usize = self.keys.len();
        let mut i: usize = 0;
        while i < n
            invariant
                n == self.keys@.len(),
                i <= n,
                forall|j: int| 0 <= j < i ==> self.keys@[j] != *k,
            decreases n - i,
        {
            if self.keys[i] == *k {
                assert(self.keys@.to_set().contains(self.keys@[i as int]));
                return true;
            }
            i = i + 1;
        }
        proof {
            if self.keys@.to_set().contains(*k) {
                let j = choose|j: int| 0 <= j < self.keys@.len() && self.keys@[j] == *k;
                assert(self.keys@[j] != *k);
            }
        }
        false
    }

    /// Whether the set is empty.
    pub fn is_empty(&self) -> (b: bool)
        ensures
            b == (self@ == Set::<AssetKey>::empty()),
    {
        proof {
            if self.keys@.len() > 0 {
                assert(self.keys@.to_set().contains(self.keys@[0]));
            } else {
                assert(self.keys@.to_set() =~= Set::<AssetKey>::empty());
            }
        }
        self.keys.len() == 0
    }

    /// Adds `k`.
    pub fn insert(&mut self, k: AssetKey)
        requires
            old(self).wf(),
        ensures
            final(self).wf(),
            final(self)@ == old(self)@.insert(k),
    {
        if !self.contains(&k) {
            let ghost before = self.keys@;
            self.keys.push(k);
            proof {
                assert forall|x: AssetKey| #[trigger] self.keys@.contains(x)
                    == (before.contains(x) || x == k) by {
                    if self.keys@.contains(x) {
                        let j = choose|j: int| 0 <= j < self.keys@.len() && self.keys@[j] == x;
                        if j < before.len() {
                            assert(before[j] == x);
                        }
                    }
                    if before.contains(x) {
                        let j = choose|j: int| 0 <= j < before.len() && before[j] == x;
                        assert(self.keys@[j] == x);
                    }
                    if x == k {
                        assert(self.keys@[before.len() as int] == k);
                    }
                }
                assert(self.keys@.to_set() =~= before.to_set().insert(k));
            }
        } else {
            assert(self.keys@.to_set() =~= old(self).keys@.to_set().insert(k));
        }
    }

    /// Removes `k`.
    pub fn remove(&mut self, k: &AssetKey)
        requires
            old(self).wf(),
        ensures
            final(self).wf(),
            final(self)@ == old(self)@.remove(*k),
    {
        let n: usize = self.keys.len();
        let mut i: usize = 0;
        while i < n
            invariant
                n == self.keys@.len(),
                i <= n,
                self.keys@.no_duplicates(),
                self.keys@ == old(self).keys@,
                forall|j: int| 0 <= j < i ==> self.keys@[j] != *k,
            decreases n - i,
        {
            if self.keys[i] == *k {
                let ghost before = self.keys@;
                self.keys.remove(i);
                proof {
                    assert forall|x: AssetKey| #[trigger] self.keys@.to_set().contains(x)
                        == before.to_set().remove(*k).contains(x) by {
                        if before.to_set().remove(*k).contains(x) {
                            let j = choose|j: int| 0 <= j < before.len() && before[j] == x;
                            if j < i {
                                assert(self.keys@[j] == x);
                            } else {
                                assert(j != i);
                                assert(self.keys@[j - 1] == x);
                            }
                        }
                        if self.keys@.to_set().contains(x) {
                            let j = choose|j: int| 0 <= j < self.keys@.len() && self.keys@[j] == x;
                            if j < i {
                                assert(before[j] == x);
                            } else {
                                assert(before[j + 1] == x);
                            }
                        }
                    }
                    assert(self.keys@.to_set() =~= before.to_set().remove(*k));
                }
                return;
            }
            i = i + 1;
        }
        proof {
            assert forall|x: AssetKey| #[trigger] self.keys@.to_set().contains(x)
                == old(self).keys@.to_set().remove(*k).contains(x) by {
                if self.keys@.to_set().contains(x) {
                    let j = choose|j: int| 0 <= j < self.keys@.len() && self.keys@[j] == x;
                    assert(self.keys@[j] != *k);
                }
            }
            assert(self.keys@.to_set() =~= old(self).keys@.to_set().remove(*k));
        }
    }

    /// Empties the set.
    pub fn clear(&mut self)
        ensures
            final(self).wf(),
            final(self)@ == Set::<AssetKey>::empty(),
    {
        self.keys.clear();
        assert(self.keys@.to_set() =~= Set::<AssetKey>::empty());
    }
}

/// What the render world knows of a splat entity's asset this frame.
#[derive(Clone, Copy, Debug, PartialEq, Eq)]
pub struct SplatSource {
    pub asset: AssetKey,
    /// The asset's point count and capacity hint, or `None` while the asset
    /// is not (or no longer) available.
    pub loaded: Option<SplatExtent>,
}

/// The size of a loaded splat asset.
#[derive(Clone, Copy, Debug, PartialEq, Eq)]
pub struct SplatExtent {
    pub point_len: usize,
    pub capacity: usize,
}

/// What happens to an entity's extracted instances this frame.
#[derive(Clone, Copy, Debug, PartialEq, Eq)]
pub enum ExtractAction {
    /// Nothing: the asset did not change, or is not available.
    Keep,
    /// The asset holds no points: drop the entity's extracted instances.
    Remove,
    /// Copy the asset's points into the render world, with the asset's
    /// capacity hint taken as a `u32`.
    Insert { initial_capacity: u32 },
}

/// The action for one entity, given the assets that are dirty this frame.
pub open spec fn extract_action(dirty: Set<AssetKey>, source: SplatSource) -> ExtractAction {
    if !dirty.contains(source.asset) {
        ExtractAction::Keep
    } else {
        match source.loaded {
            None => ExtractAction::Keep,
            Some(e) => if e.point_len == 0 {
                ExtractAction::Remove
            } else {
                ExtractAction::Insert { initial_capacity: e.capacity as u32 }
            },
        }
    }
}

/// The most recent change in `changes` about asset `k`, if any.
pub open spec fn latest_change(changes: Seq<AssetChange>, k: AssetKey) -> Option<AssetChange>
    decreases changes.len(),
{
    if changes.len() == 0 {
        None
    } else if changes.last().key() == k {
        Some(changes.last())
    } else {
        latest_change(changes.drop_last(), k)
    }
}

/// The assets that some change of `changes` marks dirty (removals ignored).
pub open spec fn changed_assets_spec(changes: Seq<AssetChange>) -> Set<AssetKey> {
    Set::new(|k: AssetKey| exists|i: int| 0 <= i < changes.len() && #[trigger] changes[i].key() == k
        && changes[i].marks_dirty())
}

/// Applies a frame's asset changes to the dirty set, in order: additions,
/// modifications and completed loads mark an asset dirty, removals and
/// unused assets clear it.
pub fn apply_asset_changes(dirty: &mut AssetKeySet, changes: &[AssetChange])
    requires
        old(dirty).wf(),
    ensures
        final(dirty).wf(),
        final(dirty)@ == apply_changes(old(dirty)@, changes@),
{
    let n: usize = changes.len();
    let mut i: usize = 0;
    while i < n
        invariant
            n == changes@.len(),
            i <= n,
            dirty.wf(),
            dirty@ == apply_changes(old(dirty)@, changes@.take(i as int)),
        decreases n - i,
    {
        let c = &changes[i];
        let k = c.asset();
        if c.is_dirtying() {
            dirty.insert(k);
        } else {
            dirty.remove(&k);
        }
        assert(changes@.take(i + 1).drop_last() =~= changes@.take(i as int));
        i = i + 1;
    }
    assert(changes@.take(n as int) =~= changes@);
}

/// One frame of instance extraction: applies the frame's asset changes,
/// decides for each entity (in order) whether its points are copied,
/// dropped or kept, and leaves the dirty set empty for the next frame.
pub fn extract_splat_instances(
    dirty: &mut AssetKeySet,
    changes: &[AssetChange],
    sources: &[SplatSource],
) -> (actions: Vec<ExtractAction>)
    requires
        old(dirty).wf(),
    ensures
        final(dirty).wf(),
        final(dirty)@ == Set::<AssetKey>::empty(),
        actions@.len() == sources@.len(),
        forall|i: int|
            0 <= i < sources@.len() ==> #[trigger] actions@[i] == extract_action(
                apply_changes(old(dirty)@, changes@),
                sources@[i],
            ),
{
    apply_asset_changes(dirty, changes);
    let ghost marked = dirty@;
    let mut actions: Vec<ExtractAction> = Vec::new();
    if dirty.is_empty() {
        let n: usize = sources.len();
        let mut i: usize = 0;
        while i < n
            invariant
                n == sources@.len(),
                i <= n,
                marked == Set::<AssetKey>::empty(),
                actions@.len() == i,
                forall|j: int|
                    0 <= j < i ==> #[trigger] actions@[j] == extract_action(marked, sources@[j]),
            decreases n - i,
        {
            actions.push(ExtractAction::Keep);
            i = i + 1;
        }
        return actions;
    }
    let n: usize = sources.len();
    let mut i: usize = 0;
    while i < n
        invariant
            n == sources@.len(),
            i <= n,
            dirty.wf(),
            dirty@ == marked,
            actions@.len() == i,
            forall|j: int|
                0 <= j < i ==> #[trigger] actions@[j] == extract_action(marked, sources@[j]),
        decreases n - i,
    {
        let s = &sources[i];
        let action = if !dirty.contains(&s.asset) {
            ExtractAction::Keep
        } else {
            match s.loaded {
                None => ExtractAction::Keep,
                Some(e) => if e.point_len == 0 {
                    ExtractAction::Remove
                } else {
                    #[verifier::truncate]
                    let initial_capacity: u32 = e.capacity as u32;
                    ExtractAction::Insert { initial_capacity }
                },
            }
        };
        actions.push(action);
        i = i + 1;
    }
    dirty.clear();
    actions
}

/// The assets that a frame's changes mark dirty: those added, modified or
/// fully loaded (removals are not taken into account).
pub fn changed_assets(changes: &[AssetChange]) -> (changed: AssetKeySet)
    ensures
        changed.wf(),
        changed@ == changed_assets_spec(changes@),
{
    let mut changed = AssetKeySet::new();
    let n: usize = changes.len();
    let mut i: usize = 0;
    while i < n
        invariant
            n == changes@.len(),
            i <= n,
            changed.wf(),
            changed@ == changed_assets_spec(changes@.take(i as int)),
        decreases n - i,
    {
        let c = &changes[i];
        if c.is_dirtying() {
            changed.insert(c.asset());
        }
        proof {
            let prev = changes@.take(i as int);
            let next = changes@.take(i + 1);
            assert forall|k: AssetKey| #[trigger] changed@.contains(k)
                == changed_assets_spec(next).contains(k) by {
                if changed_assets_spec(prev).contains(k) {
                    let j = choose|j: int| 0 <= j < prev.len() && #[trigger] prev[j].key() == k
                        && prev[j].marks_dirty();
                    assert(next[j] == prev[j]);
                }
                if changed_assets_spec(next).contains(k) {
                    let j = choose|j: int| 0 <= j < next.len() && #[trigger] next[j].key() == k
                        && next[j].marks_dirty();
                    if j < i {
                        assert(prev[j] == next[j]);
                    } else {
                        assert(next[j] == changes@[i as int]);
                    }
                }
                if c.marks_dirty() && k == c.key() {
                    assert(next[i as int] == *c);
                }
            }
            assert(changed@ =~= changed_assets_spec(next));
        }
        i = i + 1;
    }
    assert(changes@.take(n as int) =~= changes@);
    changed
}

/// For each entity (in order), whether its bounds are recomputed this
/// frame: its asset changed, is available, and holds at least one point.
pub fn bounds_update_targets(changed: &AssetKeySet, sources: &[SplatSource]) -> (targets: Vec<bool>)
    ensures
        targets@.len() == sources@.len(),
        forall|i: int|
            0 <= i < sources@.len() ==> #[trigger] targets@[i] == (changed@.contains(sources@[i].asset)
                && sources@[i].loaded is Some && sources@[i].loaded->0.point_len > 0),
{
    let mut targets: Vec<bool> = Vec::new();
    let n: usize = sources.len();
    let mut i: usize = 0;
    while i < n
        invariant
            n == sources@.len(),
            i <= n,
            targets@.len() == i,
            forall|j: int|
                0 <= j < i ==> #[trigger] targets@[j] == (changed@.contains(sources@[j].asset)
                    && sources@[j].loaded is Some && sources@[j].loaded->0.point_len > 0),
        decreases n - i,
    {
        let s = &sources[i];
        let t = match s.loaded {
            Some(e) => e.point_len > 0 && changed.contains(&s.asset),
            None => false,
        };
        targets.push(t);
        i = i + 1;
    }
    targets
}

/// Within a frame's batch of changes, the latest change about an asset
/// decides whether it is dirty; an asset no change is about keeps its state.
pub proof fn law_latest_change_wins(dirty: Set<AssetKey>, changes: Seq<AssetChange>, k: AssetKey)
    ensures
        apply_changes(dirty, changes).contains(k) == match latest_change(changes, k) {
            Some(c) => c.marks_dirty(),
            None => dirty.contains(k),
        },
    decreases changes.len(),
{
    if changes.len() > 0 {
        law_latest_change_wins(dirty, changes.drop_last(), k);
    }
}

/// An asset that was added, modified or loaded this frame (and not removed
/// after that) is copied again into the render world for every entity that
/// shows it, with the asset's capacity hint, and its points are then
/// uploaded to the GPU whatever buffers the entity had; an asset left with no
/// points has the entity's instances dropped instead.
pub proof fn law_changed_asset_is_reuploaded(
    dirty: Set<AssetKey>,
    changes: Seq<AssetChange>,
    source: SplatSource,
    existing: Option<InstanceBuffer>,
)
    requires
        latest_change(changes, source.asset) matches Some(c) && c.marks_dirty(),
        source.loaded is Some,
    ensures
        source.loaded->0.point_len > 0 ==> {
            let e = source.loaded->0;
            let pending = PendingInstances { point_len: e.point_len, initial_capacity: e.capacity as u32 };
            &&& extract_action(apply_changes(dirty, changes), source)
                == (ExtractAction::Insert { initial_capacity: e.capacity as u32 })
            &&& buffer_action(existing, Some(pending)) is Rewrite
                || buffer_action(existing, Some(pending)) is Allocate
        },
        source.loaded->0.point_len == 0 ==> extract_action(apply_changes(dirty, changes), source)
            == ExtractAction::Remove,
{
    law_latest_change_wins(dirty, changes, source.asset);
}

/// At the start of a frame nothing is dirty, so an entity whose asset no
/// change of the frame is about keeps its extracted instances.
pub proof fn law_unchanged_asset_is_kept(changes: Seq<AssetChange>, source: SplatSource)
    requires
        latest_change(changes, source.asset) is None,
    ensures
        extract_action(apply_changes(Set::<AssetKey>::empty(), changes), source) == ExtractAction::Keep,
{
    law_latest_change_wins(Set::<AssetKey>::empty(), changes, source.asset);
}

} // verus!
