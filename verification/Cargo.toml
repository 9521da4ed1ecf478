[package]
name = "bo"
version = "0.1.0"
edition = "2021"
publish = false

[dependencies]
anyhow = "1"
clap = { version = "4", features = ["derive"] }
open = "5"
regex = "1"
serde = { version = "1", features = ["derive"] }
shellexpand = "3"
skim = "*"
tokio = { version = "1", features = ["fs", "io-util", "macros", "rt-multi-thread"] }
toml = "0.8"
xdg = "2"
