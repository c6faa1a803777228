[package]
name = "okh_tool"
version = "0.1.0"
edition = "2021"
publish = false

[dependencies]
regex = "*"
regress = "*"
csv = "*"
spdx = "*"
serde = { version = "*", features = ["derive"] }
serde_yaml = "*"
serde_json = "*"
toml = "*"
walkdir = "*"
git2 = { version = "*", default-features = false }
clap = "*"
log = "*"
simplelog = "*"
chrono = "*"
url = "*"
relative-path = "*"
semver = "*"
thiserror = "*"
