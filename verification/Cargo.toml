[package]
name = "wotm"
version = "0.1.0"
edition = "2021"
publish = false

[dependencies]
rand = "=0.7.3"
roman = "=0.1.6"
bevy = { version = "=0.5.0", default-features = false, features = ["bevy_wgpu", "bevy_winit", "render", "png", "x11"] }
bevy_rapier2d = "=0.9.0"
bevy_easings = "=0.4.1"
bevy_ninepatch = "=0.5.0"
bevy_prototype_lyon = "=0.3.1"
tracing = "=0.1.44"
# Not called by this crate. Its feature switches on the full syntax tree of syn,
# which the derive macros of bevy need in order to build.
num_enum = { version = "=0.4.3", features = ["complex-expressions"] }
