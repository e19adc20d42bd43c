[package]
name = "voxel_mesher"
version = "0.1.0"
edition = "2021"
publish = false

[dependencies]
ahash = "0.8"
indexmap = "2"
ndarray = "0.15"
rayon = "1"
once_cell = "1"
clap = { version = "4", features = ["derive"] }
dirs = "5"
dot_vox = "5"
noise = "0.9"
rand = "0.8"
ron = "0.8"
serde = { version = "1", features = ["derive"] }
thiserror = "1"
tracing = "0.1"
