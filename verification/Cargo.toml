[package]
name = "cargo_bisect_rustc"
version = "0.1.0"
edition = "2021"
publish = false

[dependencies]
anyhow = "*"
chrono = "*"
clap = { version = "*", features = ["derive"] }
colored = "*"
env_logger = "*"
home = "*"
log = "*"
reqwest = { version = "*", default-features = false, features = ["blocking"] }
thiserror = "*"

[dev-dependencies]
fs-err = "*"
