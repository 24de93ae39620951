[package]
name = "colorscheme"
version = "0.1.0"
edition = "2021"
publish = false

[dependencies]
anyhow = "1"
clap = { version = "3.2", features = ["derive"] }
colored = "2"
dirs = "5"
home = "0.5"
regex = "1"
serde = { version = "1", features = ["derive"] }
serde_json = "1"
serde_yaml = "0.8"
thiserror = "1"
xdg = "2"
