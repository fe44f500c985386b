[package]
name = "netns_proxy"
version = "0.1.0"
edition = "2021"
publish = false

[dependencies]
nix = "0.26"
tokio = { version = "1", features = ["full"] }
futures = "0.3"
reqwest = { version = "0.12", default-features = false }
clap = { version = "4", features = ["derive"] }
log = "0.4"
loggerv = "0.7"
