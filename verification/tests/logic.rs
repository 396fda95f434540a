use bevy_splat::pipeline::{CompareFunction, FrontFace, PolygonMode, PrimitiveTopology};
use bevy_splat::buffers::{plan_instance_buffers, BufferAction, InstanceBuffer, PendingInstances};
use bevy_splat::extract::{
    apply_asset_changes, bounds_update_targets, changed_assets, extract_splat_instances, AssetChange,
    AssetKey, AssetKeySet, ExtractAction, SplatExtent, SplatSource,
};
use bevy_splat::float_bits::{
    F32_FIVE_HUNDRED_BITS, F32_FOUR_BITS, F32_NEG_ONE_BITS, F32_NEG_THOUSAND_BITS, F32_ONE_BITS,
    F32_THOUSAND_BITS, F32_ZERO_BITS,
};
use bevy_splat::gpu_material::GpuSplatMaterial;
use bevy_splat::material::{point_cloud_mesh_geometry, PointCloudAlphaMode, PointCloudBlend, PointCloudMaterial};
use bevy_splat::picking::{stroke_step, CellHit, GridCell, PointerAction, PointerEvent, PointerPhase};
use bevy_splat::pipeline::{
    blend_key, specialize_splat_pipeline, BlendFactor, BlendKey, StepMode, VertexFormat,
};
use bevy_splat::queue::{extract_splat_params, layers_or_default, queue_blend_key, queue_splat, RenderLayerSet};
use bevy_splat::quad::{quad_index_bytes, quad_index_count, quad_indices, quad_vertex_bytes, quad_vertices};
use bevy_splat::splat::{instance_bytes, instance_words};
use bevy_splat::{SplatBlend, SplatMaterial, SplatPoint, SplatShape};

#[test]
fn float_bit_constants_match_their_values() {
    assert_eq!(f32::from_bits(F32_ZERO_BITS), 0.0);
    assert_eq!(f32::from_bits(F32_ONE_BITS), 1.0);
    assert_eq!(f32::from_bits(F32_NEG_ONE_BITS), -1.0);
    assert_eq!(f32::from_bits(F32_FOUR_BITS), 4.0);
    assert_eq!(f32::from_bits(F32_FIVE_HUNDRED_BITS), 500.0);
    assert_eq!(f32::from_bits(F32_THOUSAND_BITS), 1000.0);
    assert_eq!(f32::from_bits(F32_NEG_THOUSAND_BITS), -1000.0);
}

fn point(seed: u32) -> SplatPoint {
    SplatPoint::new([seed, seed + 1, seed + 2], seed + 3, [seed + 4, seed + 5, seed + 6, seed + 7])
}

#[test]
fn instance_words_follow_point_layout() {
    let pts = vec![point(10), point(100)];
    let w = instance_words(&pts);
    assert_eq!(w, vec![10, 11, 12, 13, 14, 15, 16, 17, 100, 101, 102, 103, 104, 105, 106, 107]);
    assert_eq!(point(10).to_words(), [10, 11, 12, 13, 14, 15, 16, 17]);
}

#[test]
fn instance_bytes_are_the_words_in_memory() {
    let pts = vec![point(0x0102_0304), point(7)];
    let b = instance_bytes(&pts);
    assert_eq!(b.len(), 64);
    let expected: Vec<u8> = instance_words(&pts).iter().flat_map(|w| w.to_ne_bytes()).collect();
    assert_eq!(b, expected);
    assert!(instance_bytes(&[]).is_empty());
}

#[test]
fn uniform_bytes_follow_word_order() {
    let mut m = [0u32; 16];
    for (i, x) in m.iter_mut().enumerate() {
        *x = i as u32;
    }
    let mat = SplatMaterial {
        blend: SplatBlend::Alpha,
        shape: SplatShape::Square,
        size_attenuation: true,
        opacity: 77,
        falloff_sharpness: 88,
    };
    let gpu = GpuSplatMaterial::new(&mat, m);
    assert_eq!(gpu.size_attenuation, 1);
    assert_eq!(gpu.shape, 1);
    let words = gpu.to_words();
    assert_eq!(words.len(), 20);
    assert_eq!(&words[16..], &[1, 77, 1, 88]);
    let bytes = gpu.to_bytes();
    let expected: Vec<u8> = words.iter().flat_map(|w| w.to_ne_bytes()).collect();
    assert_eq!(bytes, expected);
    assert_eq!(gpu.translation(), [12, 13, 14]);
}

#[test]
fn first_upload_allocates_with_headroom() {
    let (a, s) = plan_instance_buffers(None, Some(PendingInstances { point_len: 100, initial_capacity: 100 }));
    assert_eq!(a, BufferAction::Allocate { capacity: 125, buffer_size: 4000, instance_count: 100 });
    assert_eq!(s, Some(InstanceBuffer { instance_count: 100, capacity: 125 }));
}

#[test]
fn small_uploads_get_at_least_64_plus_a_quarter() {
    let (a, _) = plan_instance_buffers(None, Some(PendingInstances { point_len: 3, initial_capacity: 0 }));
    assert_eq!(a, BufferAction::Allocate { capacity: 80, buffer_size: 2560, instance_count: 3 });
}

#[test]
fn hint_sizes_the_first_buffer() {
    let (a, _) = plan_instance_buffers(None, Some(PendingInstances { point_len: 10, initial_capacity: 500_000 }));
    assert_eq!(a, BufferAction::Allocate { capacity: 625_000, buffer_size: 20_000_000, instance_count: 10 });
}

#[test]
fn fitting_upload_reuses_buffer() {
    let old = InstanceBuffer { instance_count: 10, capacity: 80 };
    let (a, s) = plan_instance_buffers(Some(old), Some(PendingInstances { point_len: 80, initial_capacity: 0 }));
    assert_eq!(a, BufferAction::Rewrite { instance_count: 80 });
    assert_eq!(s, Some(InstanceBuffer { instance_count: 80, capacity: 80 }));
}

#[test]
fn overflowing_upload_reallocates() {
    let old = InstanceBuffer { instance_count: 10, capacity: 80 };
    let (a, s) = plan_instance_buffers(Some(old), Some(PendingInstances { point_len: 81, initial_capacity: 0 }));
    assert_eq!(a, BufferAction::Allocate { capacity: 101, buffer_size: 3232, instance_count: 81 });
    assert_eq!(s, Some(InstanceBuffer { instance_count: 81, capacity: 101 }));
}

#[test]
fn no_new_points_rewrites_params_only() {
    let old = InstanceBuffer { instance_count: 10, capacity: 80 };
    assert_eq!(plan_instance_buffers(Some(old), None), (BufferAction::WriteParams, Some(old)));
    assert_eq!(plan_instance_buffers(None, None), (BufferAction::Idle, None));
}

#[test]
fn animation_within_hint_allocates_once() {
    let hint = 1000u32;
    let mut state = None;
    let mut allocations = 0;
    for frame in 0..50usize {
        let len = 20 * frame;
        let (a, s) = plan_instance_buffers(state, Some(PendingInstances { point_len: len, initial_capacity: hint }));
        if matches!(a, BufferAction::Allocate { .. }) {
            allocations += 1;
        }
        state = s;
    }
    assert_eq!(allocations, 1);
}

fn k(i: u64) -> AssetKey {
    AssetKey::Index(i)
}

#[test]
fn latest_change_decides_dirtiness() {
    let mut d = AssetKeySet::new();
    apply_asset_changes(
        &mut d,
        &[
            AssetChange::Added(k(1)),
            AssetChange::Modified(k(2)),
            AssetChange::Removed(k(1)),
            AssetChange::LoadedWithDependencies(k(3)),
            AssetChange::Unused(k(3)),
            AssetChange::Modified(k(3)),
            AssetChange::Modified(k(2)),
        ],
    );
    assert!(!d.contains(&k(1)));
    assert!(d.contains(&k(2)));
    assert!(d.contains(&k(3)));
    d.remove(&k(2));
    assert!(!d.contains(&k(2)));
    assert!(!d.is_empty());
    d.clear();
    assert!(d.is_empty());
}

#[test]
fn extraction_per_entity() {
    let mut d = AssetKeySet::new();
    let sources = [
        SplatSource { asset: k(1), loaded: Some(SplatExtent { point_len: 10, capacity: 40 }) },
        SplatSource { asset: k(2), loaded: Some(SplatExtent { point_len: 0, capacity: 40 }) },
        SplatSource { asset: k(3), loaded: None },
        SplatSource { asset: k(4), loaded: Some(SplatExtent { point_len: 5, capacity: 5 }) },
        SplatSource { asset: AssetKey::Uuid(9), loaded: Some(SplatExtent { point_len: 5, capacity: (1usize << 32) + 7 }) },
    ];
    let changes = [
        AssetChange::Modified(k(1)),
        AssetChange::Added(k(2)),
        AssetChange::Added(k(3)),
        AssetChange::Added(AssetKey::Uuid(9)),
    ];
    let actions = extract_splat_instances(&mut d, &changes, &sources);
    assert_eq!(
        actions,
        vec![
            ExtractAction::Insert { initial_capacity: 40 },
            ExtractAction::Remove,
            ExtractAction::Keep,
            ExtractAction::Keep,
            ExtractAction::Insert { initial_capacity: 7 },
        ]
    );
    assert!(d.is_empty());
    let none = extract_splat_instances(&mut d, &[], &sources);
    assert_eq!(none, vec![ExtractAction::Keep; 5]);
}

#[test]
fn removed_in_same_frame_is_not_extracted() {
    let mut d = AssetKeySet::new();
    let sources = [SplatSource { asset: k(1), loaded: Some(SplatExtent { point_len: 10, capacity: 10 }) }];
    let actions = extract_splat_instances(&mut d, &[AssetChange::Added(k(1)), AssetChange::Removed(k(1))], &sources);
    assert_eq!(actions, vec![ExtractAction::Keep]);
}

#[test]
fn bounds_follow_changed_assets() {
    let changed = changed_assets(&[AssetChange::Added(k(1)), AssetChange::Removed(k(1)), AssetChange::Modified(k(2))]);
    assert!(changed.contains(&k(1)));
    assert!(changed.contains(&k(2)));
    let sources = [
        SplatSource { asset: k(1), loaded: Some(SplatExtent { point_len: 3, capacity: 3 }) },
        SplatSource { asset: k(2), loaded: Some(SplatExtent { point_len: 0, capacity: 0 }) },
        SplatSource { asset: k(3), loaded: Some(SplatExtent { point_len: 3, capacity: 3 }) },
        SplatSource { asset: k(2), loaded: None },
    ];
    assert_eq!(bounds_update_targets(&changed, &sources), vec![true, false, false, false]);
}

#[test]
fn blend_table() {
    for (blend, depth, key) in [
        (SplatBlend::Additive, false, BlendKey::PremultipliedAlpha),
        (SplatBlend::Alpha, false, BlendKey::Alpha),
        (SplatBlend::Opaque, true, BlendKey::Opaque),
    ] {
        assert_eq!(blend_key(blend), key);
        let p = specialize_splat_pipeline(true, 4, key);
        assert_eq!(p.depth_write, depth);
        assert_eq!(p.blend.is_none(), depth);
        assert!(p.hdr_target);
        assert_eq!(p.sample_count, 4);
    }
    let add = specialize_splat_pipeline(false, 1, BlendKey::PremultipliedAlpha).blend.unwrap();
    assert_eq!(add.color.src_factor, BlendFactor::SrcAlpha);
    assert_eq!(add.color.dst_factor, BlendFactor::One);
    let alpha = specialize_splat_pipeline(false, 1, BlendKey::Alpha).blend.unwrap();
    assert_eq!(alpha.color.dst_factor, BlendFactor::OneMinusSrcAlpha);
    assert!(specialize_splat_pipeline(false, 1, BlendKey::Other).depth_write);
}

#[test]
fn pipeline_layouts() {
    let p = specialize_splat_pipeline(false, 1, BlendKey::Opaque);
    assert_eq!(p.vertex_buffers.len(), 2);
    let q = &p.vertex_buffers[0];
    assert_eq!(q.array_stride, 16);
    assert_eq!(q.step_mode, StepMode::Vertex);
    assert_eq!(q.attributes.len(), 1);
    assert_eq!(q.attributes[0].format, VertexFormat::Float32x2);
    let i = &p.vertex_buffers[1];
    assert_eq!(i.array_stride, 32);
    assert_eq!(i.step_mode, StepMode::Instance);
    assert_eq!(i.attributes.len(), 2);
    assert_eq!((i.attributes[0].offset, i.attributes[0].shader_location), (0, 1));
    assert_eq!((i.attributes[1].offset, i.attributes[1].shader_location), (16, 2));
}

fn layers(v: &[usize]) -> RenderLayerSet {
    RenderLayerSet { layers: v.to_vec() }
}

#[test]
fn queue_requires_shared_layer() {
    assert_eq!(queue_blend_key(&layers(&[0]), &layers(&[1, 2]), SplatBlend::Alpha), None);
    assert_eq!(queue_blend_key(&layers(&[3, 2]), &layers(&[1, 2]), SplatBlend::Alpha), Some(BlendKey::Alpha));
    assert!(layers_or_default(None).contains(0));
    assert!(!layers_or_default(None).contains(1));
    assert!(layers_or_default(Some(layers(&[5]))).contains(5));
    assert!(RenderLayerSet::default().intersects(&layers(&[0, 9])));
}

#[test]
fn queued_splat_carries_key_and_translation() {
    let mut m = [0u32; 16];
    m[12] = 1;
    m[13] = 2;
    m[14] = 3;
    let params = extract_splat_params(Some(&SplatMaterial::default()), m, None).unwrap();
    assert_eq!(params.blend, SplatBlend::Additive);
    let q = queue_splat(&RenderLayerSet::default(), &params).unwrap();
    assert_eq!(q.key, BlendKey::PremultipliedAlpha);
    assert_eq!(q.translation, [1, 2, 3]);
    assert!(queue_splat(&layers(&[4]), &params).is_none());
    assert!(extract_splat_params(None, m, None).is_none());
}

fn ev(action: PointerAction, found: bool, cell: Option<(u32, u32)>) -> PointerEvent {
    PointerEvent { action, target_found: found, cell: cell.map(|(x, y)| GridCell { x, y }) }
}

fn hit(x: u32, y: u32, phase: PointerPhase) -> Option<CellHit> {
    Some(CellHit { cell: GridCell { x, y }, phase })
}

#[test]
fn stroke_begin_continue_end() {
    let (a, r) = stroke_step(false, ev(PointerAction::Press, true, Some((1, 2))));
    assert!(a);
    assert_eq!(r, hit(1, 2, PointerPhase::Begin));
    let (a, r) = stroke_step(a, ev(PointerAction::Move, true, Some((2, 2))));
    assert!(a);
    assert_eq!(r, hit(2, 2, PointerPhase::Continue));
    let (a, r) = stroke_step(a, ev(PointerAction::Move, true, None));
    assert!(a);
    assert_eq!(r, None);
    let (a, r) = stroke_step(a, ev(PointerAction::Release, true, Some((3, 2))));
    assert!(!a);
    assert_eq!(r, hit(3, 2, PointerPhase::End));
}

#[test]
fn stroke_ignores_moves_and_releases_without_press() {
    assert_eq!(stroke_step(false, ev(PointerAction::Move, true, Some((1, 1)))), (false, None));
    assert_eq!(stroke_step(false, ev(PointerAction::Release, true, Some((1, 1)))), (false, None));
    assert_eq!(stroke_step(false, ev(PointerAction::Press, true, None)), (false, None));
    assert_eq!(stroke_step(false, ev(PointerAction::Press, false, Some((1, 1)))), (false, None));
}

#[test]
fn release_off_grid_ends_stroke_silently() {
    assert_eq!(stroke_step(true, ev(PointerAction::Release, true, None)), (false, None));
    assert_eq!(stroke_step(true, ev(PointerAction::Release, false, Some((1, 1)))), (true, None));
}

#[test]
fn quad_geometry() {
    let v = quad_vertices();
    let corners: Vec<[f32; 2]> = v.iter().map(|q| q.offset.map(f32::from_bits)).collect();
    assert_eq!(corners, vec![[-1.0, -1.0], [1.0, -1.0], [1.0, 1.0], [-1.0, 1.0]]);
    assert_eq!(quad_indices(), [0, 1, 2, 0, 2, 3]);
    assert_eq!(quad_index_count(), 6);
    assert_eq!(quad_vertex_bytes().len(), 64);
    let ib = quad_index_bytes();
    let expected: Vec<u8> = [0u32, 1, 2, 0, 2, 3].iter().flat_map(|w| w.to_ne_bytes()).collect();
    assert_eq!(ib, expected);
}

#[test]
fn point_cloud_mesh_has_six_vertices_per_point() {
    let m = point_cloud_mesh_geometry(3);
    assert_eq!(m.positions.len(), 18);
    assert_eq!(m.normals.len(), 18);
    assert_eq!(m.uvs.len(), 18);
    assert_eq!(m.indices, (0..18u32).collect::<Vec<_>>());
    assert_eq!(m.positions[0].map(f32::from_bits), [-1000.0, -1000.0, -1000.0]);
    assert_eq!(m.positions[5].map(f32::from_bits), [1000.0, -1000.0, 1000.0]);
    assert_eq!(m.positions[7].map(f32::from_bits), [1000.0, 1000.0, 1000.0]);
    assert_eq!(m.positions[8].map(f32::from_bits), [0.0, 0.0, 0.0]);
    assert_eq!(m.normals[17].map(f32::from_bits), [0.0, 1.0, 0.0]);
    let one = point_cloud_mesh_geometry(1);
    assert_eq!(one.positions.len(), 6);
    assert_eq!(one.positions[5].map(f32::from_bits), [1000.0, -1000.0, 1000.0]);
    assert!(point_cloud_mesh_geometry(0).indices.is_empty());
}

#[test]
fn point_cloud_material_builders() {
    let m = PointCloudMaterial::new(7u32);
    assert_eq!(m.buffer, 7);
    assert_eq!(m.params.size_attenuation, 0);
    assert_eq!(f32::from_bits(m.params.base_scale), 500.0);
    assert_eq!(m.alpha_mode(), PointCloudAlphaMode::Add);
    let m = m.with_blend(PointCloudBlend::Alpha);
    assert_eq!(m.alpha_mode(), PointCloudAlphaMode::Blend);
    let m = m.with_perspective_size(250.0f32.to_bits());
    assert_eq!(m.params.size_attenuation, 1);
    assert_eq!(f32::from_bits(m.params.base_scale), 250.0);
    assert_eq!(m.blend, PointCloudBlend::Alpha);
    assert_eq!(m.with_blend(PointCloudBlend::Opaque).alpha_mode(), PointCloudAlphaMode::Opaque);
}

#[test]
fn pipeline_fixed_state_is_the_same_for_every_view() {
    for key in [BlendKey::Opaque, BlendKey::PremultipliedAlpha, BlendKey::Alpha, BlendKey::Other] {
        let a = specialize_splat_pipeline(false, 1, key);
        let b = specialize_splat_pipeline(true, 4, key);
        for p in [&a, &b] {
            assert_eq!(p.primitive.topology, PrimitiveTopology::TriangleList);
            assert_eq!(p.primitive.strip_index_format, None);
            assert_eq!(p.primitive.front_face, FrontFace::Ccw);
            assert_eq!(p.primitive.cull_mode, None);
            assert_eq!(p.primitive.polygon_mode, PolygonMode::Fill);
            assert!(!p.primitive.unclipped_depth && !p.primitive.conservative);
            assert_eq!(p.depth_compare, CompareFunction::GreaterEqual);
            assert!(p.write_mask.red && p.write_mask.green && p.write_mask.blue && p.write_mask.alpha);
            assert_eq!(p.sample_mask, u64::MAX);
            assert!(!p.alpha_to_coverage);
        }
        assert_eq!(a.primitive, b.primitive);
        assert_eq!(a.blend, b.blend);
        assert_eq!(a.depth_write, b.depth_write);
        assert_eq!(a.vertex_buffers[1].attributes, b.vertex_buffers[1].attributes);
    }
}

#[test]
fn point_cloud_material_depth_writes_follow_blend() {
    let m = PointCloudMaterial::new(0u8);
    assert!(!m.depth_write());
    assert!(m.with_blend(PointCloudBlend::Alpha).depth_write());
    assert!(m.with_blend(PointCloudBlend::Opaque).depth_write());
}
