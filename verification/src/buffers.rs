//! Sizing and reuse of the per-entity GPU instance buffer.
//!
//! Each frame the render world holds, per splat entity, possibly a freshly
//! extracted list of points and possibly the buffers made in an earlier
//! frame. [`plan_instance_buffers`] decides what is written or created; the
//! render world performs it.

use vstd::prelude::*;

verus! {

/// Smallest number of points an instance buffer is created for.
pub const MIN_INSTANCE_CAPACITY: u32 = 64;

/// Bytes one point occupies in an instance buffer.
pub const POINT_BYTES: u64 = 32;

/// What the render world keeps of an entity's instance buffer: how many
/// points it holds now and how many it has room for.
#[derive(Clone, Copy, Debug, PartialEq, Eq)]
pub struct InstanceBuffer {
    pub instance_count: u32,
    pub capacity: u32,
}

impl InstanceBuffer {
    /// The points drawn never exceed the room in the buffer.
    pub open spec fn wf(self) -> bool {
        self.instance_count <= self.capacity
    }
}

/// Points extracted this frame for an entity: how many there are and the
/// capacity hint of the asset they came from.
#[derive(Clone, Copy, Debug, PartialEq, Eq)]
pub struct PendingInstances {
    pub point_len: usize,
    pub initial_capacity: u32,
}

/// What the render world does with an entity's buffers this frame.
#[derive(Clone, Copy, Debug, PartialEq, Eq)]
pub enum BufferAction {
    /// Write the points and the material uniform into the existing buffers;
    /// the entity now draws `instance_count` points.
    Rewrite { instance_count: u32 },
    /// Create an instance buffer with room for `capacity` points
    /// (`buffer_size` bytes) and a new uniform buffer, and upload into both.
    Allocate { capacity: u32, buffer_size: u64, instance_count: u32 },
    /// Nothing new to upload: rewrite only the material uniform.
    WriteParams,
    /// The entity has neither new points nor buffers.
    Idle,
}

/// The number of points recorded for an upload of `point_len` points: the
/// length taken as a `u32`.
pub open spec fn instance_count_of(point_len: usize) -> u32 {
    point_len as u32
}

/// The room a new buffer is sized for before over-allocation: the point
/// count, the asset's hint and [`MIN_INSTANCE_CAPACITY`], whichever is largest.
pub open spec fn base_capacity(count: u32, hint: u32) -> u32 {
    let m: u32 = if count >= hint { count } else { hint };
    if m >= MIN_INSTANCE_CAPACITY { m } else { MIN_INSTANCE_CAPACITY }
}

/// The room of a new buffer: the base capacity plus a quarter of it.
pub open spec fn grown_capacity(count: u32, hint: u32) -> int {
    base_capacity(count, hint) + base_capacity(count, hint) / 4
}

/// Whether the existing buffer (if any) has room for `count` points.
pub open spec fn reusable(existing: Option<InstanceBuffer>, count: u32) -> bool {
    existing matches Some(b) && count <= b.capacity
}

/// Whether this frame creates a new buffer.
pub open spec fn allocates(existing: Option<InstanceBuffer>, pending: Option<PendingInstances>) -> bool {
    pending matches Some(p) && !reusable(existing, instance_count_of(p.point_len))
}

/// The inputs on which sizing a new buffer stays within `u32`.
pub open spec fn plan_in_range(existing: Option<InstanceBuffer>, pending: Option<PendingInstances>) -> bool {
    allocates(existing, pending) ==> grown_capacity(
        instance_count_of(pending->0.point_len),
        pending->0.initial_capacity,
    ) <= u32::MAX
}

/// The action taken for an entity with `existing` buffers and `pending` points.
pub open spec fn buffer_action(existing: Option<InstanceBuffer>, pending: Option<PendingInstances>) -> BufferAction {
    match pending {
        Some(p) => {
            let count: u32 = instance_count_of(p.point_len);
            if reusable(existing, count) {
                BufferAction::Rewrite { instance_count: count }
            } else {
                let c: int = grown_capacity(count, p.initial_capacity);
                BufferAction::Allocate {
                    capacity: c as u32,
                    buffer_size: (c * POINT_BYTES) as u64,
                    instance_count: count,
                }
            }
        },
        None => if existing is Some { BufferAction::WriteParams } else { BufferAction::Idle },
    }
}

/// The buffers an entity holds after `action`.
pub open spec fn buffer_after(existing: Option<InstanceBuffer>, action: BufferAction) -> Option<InstanceBuffer> {
    match action {
        BufferAction::Rewrite { instance_count } =>
            Some(InstanceBuffer { instance_count, capacity: existing->0.capacity }),
        BufferAction::Allocate { capacity, instance_count, .. } =>
            Some(InstanceBuffer { instance_count, capacity }),
        BufferAction::WriteParams => existing,
        BufferAction::Idle => existing,
    }
}

/// Whether sizing a new buffer for these inputs stays within `u32`
/// (the condition [`plan_instance_buffers`] requires).
pub fn plan_fits(existing: Option<InstanceBuffer>, pending: Option<PendingInstances>) -> (b: bool)
    ensures
        b == plan_in_range(existing, pending),
{
    match pending {
        None => true,
        Some(p) => {
            #[verifier::truncate]
            let count: u32 = p.point_len as u32;
            match existing {
                Some(b) if count <= b.capacity => true,
                _ => {
                    let base: u32 = count.max(p.initial_capacity).max(MIN_INSTANCE_CAPACITY);
                    (base as u64) + (base as u64) / 4 <= u32::MAX as u64
                },
            }
        },
    }
}

/// Decides, for one entity and one frame, whether the extracted points go
/// into the existing instance buffer or into a new one, and how large a new
/// one is; returns the action and the buffer state that follows it.
///
/// Points are reused in place when the existing buffer has room; otherwise a
/// buffer is created for the largest of the point count, the asset's
/// capacity hint and 64, plus 25%.
pub fn plan_instance_buffers(
    existing: Option<InstanceBuffer>,
    pending: Option<PendingInstances>,
) -> (res: (BufferAction, Option<InstanceBuffer>))
    requires
        plan_in_range(existing, pending),
    ensures
        res.0 == buffer_action(existing, pending),
        res.1 == buffer_after(existing, res.0),
{
    match pending {
        Some(p) => {
            #[verifier::truncate]
            let count: u32 = p.point_len as u32;
            match existing {
                Some(b) if count <= b.capacity => {
                    (
                        BufferAction::Rewrite { instance_count: count },
                        Some(InstanceBuffer { instance_count: count, capacity: b.capacity }),
                    )
                },
                _ => {
                    let base: u32 = count.max(p.initial_capacity).max(MIN_INSTANCE_CAPACITY);
                    let capacity: u32 = base + base / 4;
                    let buffer_size: u64 = capacity as u64 * POINT_BYTES;
                    (
                        BufferAction::Allocate { capacity, buffer_size, instance_count: count },
                        Some(InstanceBuffer { instance_count: count, capacity }),
                    )
                },
            }
        },
        None => {
            if existing.is_some() {
                (BufferAction::WriteParams, existing)
            } else {
                (BufferAction::Idle, existing)
            }
        },
    }
}

/// The buffers after each of a run of frames, from `start`.
pub open spec fn run_buffers(start: Option<InstanceBuffer>, frames: Seq<Option<PendingInstances>>) -> Option<InstanceBuffer>
    decreases frames.len(),
{
    if frames.len() == 0 {
        start
    } else {
        let prev = run_buffers(start, frames.drop_last());
        buffer_after(prev, buffer_action(prev, frames.last()))
    }
}

/// How many frames of a run create a new buffer.
pub open spec fn allocation_count(start: Option<InstanceBuffer>, frames: Seq<Option<PendingInstances>>) -> nat
    decreases frames.len(),
{
    if frames.len() == 0 {
        0
    } else {
        allocation_count(start, frames.drop_last()) + if allocates(
            run_buffers(start, frames.drop_last()),
            frames.last(),
        ) {
            1nat
        } else {
            0nat
        }
    }
}

/// Every frame keeps the points drawn within the room of the buffer, and an
/// upload of `n` points (with `n` a `u32`) lands in a buffer of at least
/// `32 * n` bytes holding exactly `n` points.
pub proof fn law_upload_fits(existing: Option<InstanceBuffer>, pending: Option<PendingInstances>)
    requires
        plan_in_range(existing, pending),
        existing matches Some(b) ==> b.wf(),
    ensures
        buffer_after(existing, buffer_action(existing, pending)) is Some ==> buffer_after(
            existing,
            buffer_action(existing, pending),
        )->0.wf(),
        (pending is Some && pending->0.point_len <= u32::MAX) ==> {
            let after = buffer_after(existing, buffer_action(existing, pending));
            &&& after is Some
            &&& after->0.instance_count == pending->0.point_len
            &&& pending->0.point_len * POINT_BYTES <= after->0.capacity * POINT_BYTES
        },
        buffer_action(existing, pending) matches BufferAction::Allocate { capacity, buffer_size, instance_count } ==> {
            &&& buffer_size == capacity * POINT_BYTES
            &&& instance_count <= capacity
        },
{
}

/// A new buffer has room for at least the points, the asset's capacity hint
/// and 64 points, and is 25% larger than the largest of these (rounded down).
pub proof fn law_over_allocation(existing: Option<InstanceBuffer>, pending: Option<PendingInstances>)
    requires
        plan_in_range(existing, pending),
        allocates(existing, pending),
    ensures
        buffer_action(existing, pending) matches BufferAction::Allocate { capacity, .. } && {
            let count: u32 = instance_count_of(pending->0.point_len);
            let base: u32 = base_capacity(count, pending->0.initial_capacity);
            &&& capacity == base + base / 4
            &&& base >= count
            &&& base >= pending->0.initial_capacity
            &&& base >= MIN_INSTANCE_CAPACITY
        },
{
}

/// An instance buffer never shrinks, and it is replaced only when the
/// points no longer fit in it.
pub proof fn law_capacity_never_shrinks(existing: Option<InstanceBuffer>, pending: Option<PendingInstances>)
    requires
        plan_in_range(existing, pending),
        existing is Some,
    ensures
        buffer_after(existing, buffer_action(existing, pending)) is Some,
        buffer_after(existing, buffer_action(existing, pending))->0.capacity >= existing->0.capacity,
        allocates(existing, pending) ==> instance_count_of(pending->0.point_len) > existing->0.capacity,
{
}

/// With a capacity hint at least as large as every point count of a run
/// of frames (frames without new points included), at most one frame of the run creates a buffer; none does when
/// the starting buffer already has room for the hint.
pub proof fn law_hint_avoids_reallocation(
    start: Option<InstanceBuffer>,
    frames: Seq<Option<PendingInstances>>,
    hint: u32,
)
    requires
        grown_capacity(0, hint) <= u32::MAX,
        forall|i: int|
            0 <= i < frames.len() ==> (#[trigger] frames[i] is Some ==> (instance_count_of(
                frames[i]->0.point_len,
            ) <= hint && frames[i]->0.initial_capacity == hint)),
    ensures
        allocation_count(start, frames) <= 1,
        (start is Some && start->0.capacity >= hint) ==> allocation_count(start, frames) == 0,
    decreases frames.len(),
{
    lemma_hint_run(start, frames, hint);
}

proof fn lemma_hint_run(
    start: Option<InstanceBuffer>,
    frames: Seq<Option<PendingInstances>>,
    hint: u32,
)
    requires
        grown_capacity(0, hint) <= u32::MAX,
        forall|i: int|
            0 <= i < frames.len() ==> (#[trigger] frames[i] is Some ==> (instance_count_of(
                frames[i]->0.point_len,
            ) <= hint && frames[i]->0.initial_capacity == hint)),
    ensures
        allocation_count(start, frames) == 0 || (allocation_count(start, frames) == 1
            && run_buffers(start, frames) is Some && run_buffers(start, frames)->0.capacity >= hint),
        (start is Some && start->0.capacity >= hint) ==> (allocation_count(start, frames) == 0
            && run_buffers(start, frames) is Some && run_buffers(start, frames)->0.capacity >= hint),
    decreases frames.len(),
{
    if frames.len() > 0 {
        let init = frames.drop_last();
        assert forall|i: int| 0 <= i < init.len() && #[trigger] init[i] is Some implies (
        instance_count_of(init[i]->0.point_len) <= hint && init[i]->0.initial_capacity == hint) by {
            assert(init[i] == frames[i]);
        }
        lemma_hint_run(start, init, hint);
        let last = frames.last();
        assert(frames[frames.len() - 1] == last);
    }
}

} // verus!
