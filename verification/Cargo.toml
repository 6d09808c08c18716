[package]
name = "higgs"
version = "0.1.0"
edition = "2021"
publish = false

[dependencies]
subtle = "2"
serde = { version = "1", features = ["derive"] }
serde_json = "1"
log = "0.4"
tokio = { version = "1", features = ["rt", "macros"] }
axum = "*"
leptos = "*"
leptos_axum = "*"
