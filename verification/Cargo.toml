[package]
name = "gps_gui_rs"
version = "0.1.0"
edition = "2021"
publish = false

[dependencies]
toml_edit = "=0.23.10"
toml = "=0.9.12"
serde = { version = "1", features = ["derive"] }
walkers = { version = "=0.65.0", default-features = false }
egui = "=0.37.0"
tokio = { version = "1", features = ["rt", "time"] }
env_logger = { version = "0.11", default-features = false }
log = "0.4"
uuid = "1"
futures = { version = "0.3", default-features = false, features = ["std"] }
