[package]
name = "gauntlet"
version = "0.1.0"
edition = "2021"
publish = false

[dependencies]
hashbrown = "=0.15.5"
raylib = "=5.5.1"
serde = { version = "=1.0.229", features = ["derive"] }
serde_json = "=1.0.154"
anyhow = "=1.0.104"
rand = "=0.9.5"
rapier3d = "*"
typetag = "*"
rfd = { version = "*", default-features = false, features = ["gtk3"] }
