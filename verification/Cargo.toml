[package]
name = "identity_broker"
version = "0.1.0"
edition = "2021"
publish = false

[dependencies]
async-trait = "=0.1.92"
bytes = "=1.12.1"
dbus = { version = "=0.9.12", features = ["vendored"] }
dbus-crossroads = "=0.5.3"
futures = "=0.3.34"
libc = "=0.2.191"
tokio = { version = "=1.54.1", features = ["net", "rt", "sync", "macros", "io-util"] }
tokio-util = { version = "=0.7.20", features = ["codec"] }
tracing = "=0.1.44"

[dev-dependencies]
serde = "=1.0.229"
serde_json = "=1.0.154"
