[package]
name = "minecraft_terminal_viewer"
version = "0.1.0"
edition = "2021"
publish = false

[dependencies]
anyhow = "1"
atty = "0.2"
crossterm = "0.28"
rand_core = { version = "0.6", features = ["getrandom"] }
ratatui = "0.29"
russh = { version = "0.54", default-features = false, features = ["ring", "flate2"] }
tokio = { version = "1", features = ["macros", "rt-multi-thread", "sync", "time"] }
