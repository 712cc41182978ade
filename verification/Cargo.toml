[package]
name = "common"
version = "0.1.0"
edition = "2021"
publish = false

[dependencies]
bevy = { version = "0.12.1", default-features = false, features = ["bevy_asset"] }
bevy_asset_loader = { version = "0.18", default-features = false }
bevy_renet = "0.0.10"
bincode = "2"
kdl = "4"
pkg-version = "1"
rand = "0.8"
rand_distr = "0.4"
serde = { version = "1", features = ["derive"] }
