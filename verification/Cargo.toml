[package]
name = "neptune"
version = "0.1.0"
edition = "2021"
publish = false

[dependencies]
twenty-first = "=1.1.0"
triton-isa = "=7.0.0"
tokio = { version = "=1.54.1", default-features = false, features = ["macros", "net", "rt", "sync", "time"] }
convert_case = "=0.8.0"
serde = { version = "1", features = ["derive"] }
serde_json = "1"
axum = { version = "0.8", default-features = false, features = ["http1", "json", "tokio"] }
async-trait = "0.1"
chrono = { version = "=0.4.45", default-features = false, features = ["clock"] }
anyhow = "1"
futures = { version = "=0.3.34", default-features = false, features = ["std"] }
tracing = { version = "0.1", default-features = false, features = ["std"] }
syn = { version = "2", features = ["full"] }
quote = "1"
proc-macro2 = "1"
