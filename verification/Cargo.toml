[package]
name = "rustfs"
version = "0.1.0"
edition = "2021"
publish = false

[dependencies]
bytes = "=1.12.1"
http = "=1.5.0"
hyper = "=1.12.0"
hyper-util = { version = "=0.1.21", features = ["server-auto", "server-graceful", "service", "tokio"] }
opentelemetry = "=0.33.1"
rustls = "=0.23.46"
s3s = "=0.13.0"
socket2 = { version = "=0.6.5", features = ["all"] }
sysctl = "=0.7.1"
tokio = { version = "=1.54.1", features = ["fs", "io-util", "macros", "net", "rt", "rt-multi-thread", "signal", "sync", "time"] }
tokio-rustls = "=0.26.6"
tonic = { version = "=0.14.9", default-features = false, features = ["codegen", "server"] }
tower = { version = "=0.5.3", features = ["util"] }
tower-http = { version = "=0.6.11", features = ["catch-panic", "cors", "trace"] }
tracing = "=0.1.44"

[dev-dependencies]
http-body-util = "=0.1.5"
