[package]
name = "bevy_simple_stat_bars"
version = "0.1.0"
edition = "2021"
publish = false

[dependencies]
bevy = { version = "0.16", default-features = false, features = ["std", "bevy_color", "bevy_render", "bevy_sprite"] }
