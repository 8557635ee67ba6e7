[package]
name = "restate_operator"
version = "0.1.0"
edition = "2021"
publish = false

[dependencies]
chrono = "=0.4.45"
fnv = "=1.0.7"
futures = "=0.3.34"
k8s-openapi = { version = "=0.26.1", features = ["latest", "schemars"] }
kube = { version = "=2.0.1", features = ["derive", "runtime", "unstable-runtime"] }
prost = "=0.13.5"
reqwest = { version = "=0.12.28", default-features = false, features = ["json", "rustls-tls"] }
schemars = "=1.2.3"
serde = { version = "=1.0.229", features = ["derive"] }
serde-hashkey = "=0.4.5"
serde_json = "=1.0.154"
serde_yaml = "=0.9.34"
sha2 = "=0.10.9"
tokio = { version = "=1.54.1", features = ["macros", "rt-multi-thread", "signal", "sync", "time"] }
toml = "=0.8.23"
tonic = "=0.12.3"
tracing = "=0.1.44"
url = "=2.5.8"
