[package]
name = "pac_maze"
version = "0.1.0"
edition = "2021"
publish = false

[dependencies]
bevy = { version = "=0.2.1", default-features = false, features = ["bevy_render", "bevy_sprite"] }
ndarray = "=0.15.6"
# Named by nothing here: bevy_asset 0.2 is written against this release of
# notify and does not compile with the later ones that its manifest admits.
notify = "=5.0.0-pre.2"
smallvec = "=1.16.4"
