[package]
name = "pagi_gateway"
version = "0.1.0"
edition = "2021"
publish = false

[dependencies]
serde = { version = "=1.0.229", features = ["derive"] }
serde_json = "=1.0.151"
toml = "=1.1.7"
uuid = { version = "=1.27.0", features = ["v4", "serde"] }
axum = "=0.8.9"
tokio = { version = "=1.53.2", features = ["macros", "rt-multi-thread", "net", "sync", "time", "process", "fs"] }
reqwest = { version = "=0.13.5", default-features = false, features = ["json"] }
redis = { version = "=1.7.1", features = ["tokio-comp"] }
notify = "=8.2.0"
libloading = "=0.9.0"
wasmtime = { version = "=47.0.4", default-features = false, features = ["runtime", "cranelift", "component-model"] }
metrics = "=0.24.6"
metrics-exporter-prometheus = { version = "=0.18.3", default-features = false }
time = { version = "=0.3.55", features = ["formatting"] }
