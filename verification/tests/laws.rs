use bevy_splat::buffers::{plan_fits, plan_instance_buffers, BufferAction, InstanceBuffer, PendingInstances};
use bevy_splat::extract::{extract_splat_instances, AssetChange, AssetKey, AssetKeySet, ExtractAction, SplatExtent, SplatSource};
use bevy_splat::picking::{stroke_step, GridCell, PointerAction, PointerEvent, PointerPhase};
use bevy_splat::quad::{quad_indices, quad_vertices};
use bevy_splat::splat::{instance_bytes, instance_words};
use bevy_splat::SplatPoint;

#[test]
fn point_records_sit_at_32_byte_stride() {
    let pts: Vec<SplatPoint> = (0..5u32)
        .map(|i| SplatPoint::new([i * 8, i * 8 + 1, i * 8 + 2], i * 8 + 3, [i * 8 + 4, i * 8 + 5, i * 8 + 6, i * 8 + 7]))
        .collect();
    let bytes = instance_bytes(&pts);
    for (i, p) in pts.iter().enumerate() {
        let expected: Vec<u8> = p.to_words().iter().flat_map(|w| w.to_ne_bytes()).collect();
        assert_eq!(&bytes[32 * i..32 * i + 32], expected.as_slice());
    }
    assert_eq!(instance_words(&pts).len(), 40);
}

#[test]
fn capacity_never_shrinks_over_frames() {
    let lens = [10usize, 200, 5, 0, 90, 1000, 3, 1001, 1300];
    let mut state: Option<InstanceBuffer> = None;
    for len in lens {
        let pending = Some(PendingInstances { point_len: len, initial_capacity: 0 });
        assert!(plan_fits(state, pending));
        let (action, next) = plan_instance_buffers(state, pending);
        let next = next.unwrap();
        assert!(next.instance_count <= next.capacity);
        assert_eq!(next.instance_count as usize, len);
        if let Some(prev) = state {
            assert!(next.capacity >= prev.capacity);
            if matches!(action, BufferAction::Allocate { .. }) {
                assert!(len as u32 > prev.capacity);
            }
        }
        if let BufferAction::Allocate { capacity, buffer_size, .. } = action {
            assert_eq!(buffer_size, capacity as u64 * 32);
        }
        state = Some(next);
    }
}

#[test]
fn capacity_that_overflows_u32_is_reported() {
    let pending = Some(PendingInstances { point_len: 10, initial_capacity: u32::MAX });
    assert!(!plan_fits(None, pending));
    let pending = Some(PendingInstances { point_len: 10, initial_capacity: 0xCCCC_CCCC });
    assert!(plan_fits(None, pending));
    let fitting = InstanceBuffer { instance_count: 0, capacity: 10 };
    assert!(plan_fits(Some(fitting), Some(PendingInstances { point_len: 10, initial_capacity: u32::MAX })));
}

#[test]
fn hint_in_place_means_no_reallocation() {
    let mut state = Some(InstanceBuffer { instance_count: 0, capacity: 2000 });
    for len in [0usize, 500, 1999, 2000, 7] {
        let (action, next) = plan_instance_buffers(state, Some(PendingInstances { point_len: len, initial_capacity: 2000 }));
        assert_eq!(action, BufferAction::Rewrite { instance_count: len as u32 });
        state = next;
    }
}

#[test]
fn modified_asset_is_reextracted_then_uploaded() {
    let mut dirty = AssetKeySet::new();
    let source = SplatSource { asset: AssetKey::Uuid(42), loaded: Some(SplatExtent { point_len: 300, capacity: 500 }) };
    let actions = extract_splat_instances(&mut dirty, &[AssetChange::Modified(AssetKey::Uuid(42))], &[source]);
    assert_eq!(actions, vec![ExtractAction::Insert { initial_capacity: 500 }]);
    let existing = Some(InstanceBuffer { instance_count: 10, capacity: 80 });
    let (action, _) = plan_instance_buffers(existing, Some(PendingInstances { point_len: 300, initial_capacity: 500 }));
    assert!(matches!(action, BufferAction::Allocate { .. } | BufferAction::Rewrite { .. }));
    let actions = extract_splat_instances(&mut dirty, &[AssetChange::Modified(AssetKey::Uuid(7))], &[source]);
    assert_eq!(actions, vec![ExtractAction::Keep]);
}

#[test]
fn quad_triangles_wind_counter_clockwise() {
    let corners: Vec<[f32; 2]> = quad_vertices().iter().map(|v| v.offset.map(f32::from_bits)).collect();
    let ix = quad_indices();
    for t in 0..2 {
        let a = corners[ix[3 * t] as usize];
        let b = corners[ix[3 * t + 1] as usize];
        let c = corners[ix[3 * t + 2] as usize];
        let area2 = (b[0] - a[0]) * (c[1] - a[1]) - (b[1] - a[1]) * (c[0] - a[0]);
        assert!(area2 > 0.0);
    }
}

fn pseudo_random(seed: &mut u64) -> u64 {
    *seed = seed.wrapping_mul(6364136223846793005).wrapping_add(1442695040888963407);
    *seed >> 33
}

#[test]
fn strokes_are_well_nested_on_many_runs() {
    let mut seed = 12345u64;
    for _ in 0..200 {
        let mut active = false;
        let mut open_begin = false;
        for _ in 0..60 {
            let r = pseudo_random(&mut seed);
            let action = match r % 3 {
                0 => PointerAction::Press,
                1 => PointerAction::Move,
                _ => PointerAction::Release,
            };
            let event = PointerEvent {
                action,
                target_found: (r / 3) % 5 != 0,
                cell: if (r / 15) % 4 == 0 { None } else { Some(GridCell { x: (r % 7) as u32, y: (r % 11) as u32 }) },
            };
            let (next, hit) = stroke_step(active, event);
            match hit.map(|h| h.phase) {
                Some(PointerPhase::Begin) => open_begin = true,
                Some(PointerPhase::Continue) => assert!(open_begin),
                Some(PointerPhase::End) => {
                    assert!(open_begin);
                    open_begin = false;
                }
                None => {}
            }
            if action != PointerAction::Press && !active {
                assert!(hit.is_none());
            }
            if action == PointerAction::Release && event.target_found {
                assert!(!next);
            }
            active = next;
        }
    }
}
