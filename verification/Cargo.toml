[package]
name = "platformer_controller"
version = "0.1.0"
edition = "2021"
publish = false

[dependencies]
bevy = { version = "=0.17.3", default-features = false, features = ["std", "bevy_log", "bevy_sprite", "bevy_camera", "bevy_color"] }
avian2d = { version = "=0.4.1", default-features = false, features = ["2d", "f32", "parry-f32", "default-collider", "debug-plugin", "parallel"] }
