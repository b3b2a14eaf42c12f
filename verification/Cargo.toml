[package]
name = "omw_util"
version = "0.1.0"
edition = "2021"
publish = false

[dependencies]
dirs = "*"
egui_dnd = "*"
log = "*"
serde = { version = "*", features = ["derive"] }
toml = "*"
