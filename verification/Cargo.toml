[package]
name = "deltime"
version = "0.1.0"
edition = "2021"
publish = false

[dependencies]
actually_beep = "*"
blake3 = "*"
chrono = "*"
clap = { version = "*", features = ["derive"] }
futures = "*"
indicatif = "*"
serde = { version = "*", features = ["derive"] }
thiserror = "*"
tokio = { version = "*", features = ["full"] }
toml = "*"
udev = "*"
