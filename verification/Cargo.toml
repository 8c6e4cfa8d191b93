[package]
name = "suspension"
version = "0.1.0"
edition = "2021"
publish = false

[dependencies]
bevy = { version = "=0.13.2", default-features = false }
bevy_xpbd_3d = { version = "=0.4.2", default-features = false, features = ["3d", "parry-f32"] }
