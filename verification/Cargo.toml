[package]
name = "prop_hunt"
version = "0.1.0"
edition = "2021"
publish = false

[dependencies]
avian3d = { version = "=0.7.0", default-features = false, features = ["3d", "f32", "parry-f32"] }
bevy = { version = "=0.19.1", default-features = false, features = ["std", "bevy_log"] }
rand = "=0.10.3"
serde = { version = "=1.0.229", features = ["derive"] }
