[package]
name = "tursokit"
version = "0.1.0"
edition = "2021"
publish = false

[dependencies]
anyhow = "=1.0.104"
async-trait = "=0.1.92"
base64 = "=0.22.1"
bytemuck = { version = "=1.25.2", features = ["min_const_generics"] }
futures = "=0.3.34"
hegeltest = { version = "=0.51.0", features = ["static-engine"] }
pgwire = "=0.42.1"
rustc-hash = "=2.1.3"
serde = { version = "=1.0.229", features = ["derive"] }
serde_json = "=1.0.154"
tokio = { version = "=1.54.1", features = ["full"] }
tracing = "=0.1.44"
