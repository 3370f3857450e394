[package]
name = "richclip"
version = "0.1.0"
edition = "2021"
publish = false

[dependencies]
anyhow = "1"
clap = { version = "4", features = ["derive"] }
daemonize = "0.5"
log = "0.4"
nix = { version = "0.29", features = ["fs"] }
simplelog = "0.12"
wayrs-client = "1"
wayrs-protocols = { version = "0.14", features = ["wlr-data-control-unstable-v1"] }
x11rb = "0.13"
