[package]
name = "sopmod"
version = "0.1.0"
edition = "2021"
publish = false

[dependencies]
semver = "1"
serde = { version = "1", features = ["derive"] }
toml = "*"
reqwest = { version = "*", features = ["blocking", "json"] }
flate2 = "1"
tar = "*"
zip = { version = "*", default-features = false, features = ["deflate"] }
tempfile = "3"
clap = { version = "4", features = ["derive"] }
console = "*"
indicatif = "*"
dirs = "*"
thiserror = "*"
