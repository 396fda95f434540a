[package]
name = "bevy_splat"
version = "0.1.0"
edition = "2021"
publish = false

[dependencies]
bytemuck = { version = "1", features = ["derive"] }
bevy = { version = "0.17", default-features = false, features = ["std", "bevy_render", "bevy_core_pipeline", "bevy_pbr", "bevy_picking", "bevy_mesh_picking_backend"] }
