[package]
name = "tshock_export"
version = "0.1.0"
edition = "2021"
publish = false

[dependencies]
anyhow = "1"
clap = { version = "4", features = ["derive"] }
rusqlite = { version = "*", features = ["bundled"] }
terra-items = "*"
terra-plr = "*"
terra-types = "*"
