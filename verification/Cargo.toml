[package]
name = "nix_health"
version = "0.1.0"
edition = "2021"
publish = false

[dependencies]
cfg-if = "1"
clap = { version = "4", features = ["derive", "env"] }
leptos = "0.4"
leptos_query = "0.2"
serde = { version = "1", features = ["derive"] }
tracing = "0.1"
