[package]
name = "relay"
version = "1.6.0"
edition = "2021"
publish = false

[dependencies]
clap = { version = "4", features = ["derive", "env"] }
libc = "0.2"
nix = { version = "0.30", features = ["event", "fs", "net", "poll", "resource", "signal", "socket", "zerocopy"] }
serde = { version = "1", features = ["derive"] }
socket2 = { version = "0.6", features = ["all"] }
toml = "0.8"
