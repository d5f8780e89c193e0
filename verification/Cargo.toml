[package]
name = "last_stanza"
version = "0.1.0"
edition = "2021"
publish = false

[dependencies]
rand = "=0.8.8"
bevy = { version = "=0.8.1", default-features = false, features = ["render"] }
heron = { version = "=4.3.0", features = ["2d"] }
bevy_asset_loader = { version = "=0.12.1", features = ["2d"] }
bevy_common_assets = { version = "=0.3.0", features = ["toml"] }
serde = { version = "1", features = ["derive"] }
