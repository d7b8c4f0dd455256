[package]
name = "sd-core"
version = "0.1.0"
edition = "2021"
publish = false

[dependencies]
futures = "=0.3.34"
libp2p = { version = "=0.57.1", default-features = false }
mdns-sd = "=0.7.5"
ort = { version = "=2.0.0-rc.15", default-features = false, features = ["load-dynamic", "xnnpack", "coreml", "directml"] }
rmp-serde = "=1.3.1"
serde = { version = "=1.0.229", features = ["derive"] }
smallvec = "=1.16.4"
thiserror = "=1.0.69"
tokio = { version = "=1.54.1", features = ["sync", "macros"] }
tracing = "=0.1.44"
unsigned-varint = { version = "=0.8.0", features = ["futures"] }
