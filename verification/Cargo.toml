[package]
name = "ow-wasmtime"
version = "0.1.0"
edition = "2021"
publish = false
rust-version = "1.95"

[dependencies]
anyhow = "=1.0.104"
aws-config = { version = "=1.13.0", default-features = false, features = ["rt-tokio", "behavior-version-latest", "default-https-client"] }
aws-sdk-s3 = { version = "=1.155.0", default-features = false, features = ["rt-tokio", "default-https-client"] }
base64 = "=0.22.1"
dashmap = "=6.2.1"
fasthash = "=0.4.0"
image = { version = "=0.25.10", default-features = false, features = ["jpeg", "png"] }
rayon = "=1.12.0"
reqwest = { version = "=0.13.5", default-features = false, features = ["blocking", "rustls"] }
serde_json = "=1.0.154"
timedmap = "=1.0.2"
tokio = { version = "=1.54.1", features = ["rt-multi-thread"] }
wasi-nn = "=0.6.0"
wasmtime = { version = "=46.0.3", default-features = false, features = ["anyhow", "runtime", "cranelift", "component-model", "std", "wat"] }
wasmtime-wasi = { version = "=46.0.3", default-features = false, features = ["p1", "p2"] }
wasmtime-wasi-nn = { version = "=46.0.3", default-features = false }
