[package]
name = "openbn"
version = "0.1.0"
edition = "2021"
publish = false

[dependencies]
serde = { version = "1", features = ["derive"] }
tokio = { version = "1", features = ["rt-multi-thread", "macros", "time"] }
zbus = { version = "3", default-features = false, features = ["tokio"] }
