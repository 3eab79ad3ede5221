[package]
name = "sim_core"
version = "0.1.0"
edition = "2021"
publish = false

[dependencies]
bevy_ecs = "0.15"
glam = { version = "0.29", features = ["serde"] }
nalgebra = "0.33"
serde = { version = "1", features = ["derive"] }
serde_json = "1"
axum = { version = "0.7", features = ["ws"] }
tokio = { version = "1", features = ["rt-multi-thread", "macros", "sync", "net", "time"] }
tower-http = { version = "0.6", features = ["cors"] }
clap = { version = "4", features = ["derive"] }
tracing = "0.1"
tracing-subscriber = { version = "0.3", features = ["env-filter", "fmt"] }
futures-util = { version = "0.3", features = ["sink"] }
parking_lot = "0.12"
