use bevy::math::{Vec3, Vec4};
use bevy::transform::components::{GlobalTransform, Transform};
use bevy_splat::gpu_material::GpuSplatMaterial;
use bevy_splat::material::PointCloudShape;
use bevy_splat::point_cloud::{PointCloud, PointData};
use bevy_splat::quad::{quad_indices, quad_vertices};
use bevy_splat::{Splat, SplatBlend, SplatMaterial, SplatPoint, SplatShape};

fn bits3(v: Vec3) -> [u32; 3] {
    v.to_array().map(f32::to_bits)
}

fn bits4(v: Vec4) -> [u32; 4] {
    v.to_array().map(f32::to_bits)
}

fn floats<const N: usize>(b: [u32; N]) -> [f32; N] {
    b.map(f32::from_bits)
}

#[test]
fn splat_point_new() {
    let p = SplatPoint::new(
        bits3(Vec3::new(1.0, 2.0, 3.0)),
        5.0f32.to_bits(),
        bits4(Vec4::new(0.1, 0.2, 0.3, 0.4)),
    );
    assert_eq!(floats(p.position), [1.0, 2.0, 3.0]);
    assert_eq!(f32::from_bits(p.size), 5.0);
    assert_eq!(floats(p.color), [0.1, 0.2, 0.3, 0.4]);
}

#[test]
fn splat_new_sets_capacity_to_len() {
    let splat = Splat::new(vec![SplatPoint::default(); 10]);
    assert_eq!(splat.points.len(), 10);
    assert_eq!(splat.capacity, 10);
}

#[test]
fn splat_with_capacity_respects_hint() {
    let splat = Splat::with_capacity(vec![SplatPoint::default(); 5], 100);
    assert_eq!(splat.points.len(), 5);
    assert_eq!(splat.capacity, 100);
}

#[test]
fn splat_with_capacity_clamps_to_len() {
    let splat = Splat::with_capacity(vec![SplatPoint::default(); 50], 10);
    assert_eq!(splat.capacity, 50);
}

#[test]
fn point_data_new() {
    let pd = PointData::new(
        bits3(Vec3::new(1.0, 2.0, 3.0)),
        5.0f32.to_bits(),
        bits4(Vec4::new(0.1, 0.2, 0.3, 0.4)),
    );
    assert_eq!(floats(pd.position), [1.0, 2.0, 3.0]);
    assert_eq!(f32::from_bits(pd.size), 5.0);
    assert_eq!(floats(pd.color), [0.1, 0.2, 0.3, 0.4]);
}

#[test]
fn point_cloud_new_sets_capacity_to_len() {
    let points = vec![PointData::default(); 10];
    let cloud = PointCloud::new(points);
    assert_eq!(cloud.points.len(), 10);
    assert_eq!(cloud.capacity, 10);
}

#[test]
fn point_cloud_with_capacity_respects_hint() {
    let points = vec![PointData::default(); 5];
    let cloud = PointCloud::with_capacity(points, 100);
    assert_eq!(cloud.points.len(), 5);
    assert_eq!(cloud.capacity, 100);
}

#[test]
fn point_cloud_with_capacity_clamps_to_len() {
    let points = vec![PointData::default(); 50];
    let cloud = PointCloud::with_capacity(points, 10);
    assert_eq!(cloud.capacity, 50);
}

#[test]
fn splat_material_defaults() {
    let m = SplatMaterial::default();
    assert_eq!(m.blend, SplatBlend::Additive);
    assert_eq!(m.shape, SplatShape::Circle);
    assert!(!m.size_attenuation);
    assert_eq!(f32::from_bits(m.opacity), 1.0);
    assert_eq!(f32::from_bits(m.falloff_sharpness), 4.0);
}

#[test]
fn gpu_material_packs_to_80_bytes() {
    assert_eq!(std::mem::size_of::<GpuSplatMaterial>(), 80);
    let gpu = GpuSplatMaterial::new(&SplatMaterial::default(), [0; 16]);
    assert_eq!(gpu.to_bytes().len(), 80);
}

fn matrix_bits(t: &GlobalTransform) -> [u32; 16] {
    t.to_matrix().to_cols_array().map(f32::to_bits)
}

#[test]
fn gpu_material_from_default() {
    let m = SplatMaterial::default();
    let t = GlobalTransform::IDENTITY;
    let gpu = GpuSplatMaterial::new(&m, matrix_bits(&t));
    assert_eq!(gpu.size_attenuation, 0);
    assert_eq!(f32::from_bits(gpu.opacity), 1.0);
    assert_eq!(gpu.shape, 0);
    assert_eq!(f32::from_bits(gpu.falloff_sharpness), 4.0);
}

#[test]
fn gpu_material_carries_translation() {
    let t = GlobalTransform::from(Transform::from_xyz(1.0, 2.0, 3.0));
    let gpu = GpuSplatMaterial::new(&SplatMaterial::default(), matrix_bits(&t));
    assert_eq!(f32::from_bits(gpu.world_from_local[12]), 1.0);
    assert_eq!(f32::from_bits(gpu.world_from_local[13]), 2.0);
    assert_eq!(f32::from_bits(gpu.world_from_local[14]), 3.0);
    assert_eq!(floats(gpu.translation()), [1.0, 2.0, 3.0]);
}

#[test]
fn quad_geometry_is_two_triangles() {
    assert_eq!(quad_vertices().len(), 4);
    assert_eq!(quad_indices().len(), 6);
}

#[test]
fn point_cloud_shape_defaults_to_circle() {
    assert_eq!(PointCloudShape::default(), PointCloudShape::Circle);
}
