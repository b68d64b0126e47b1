[package]
name = "rustdesk"
version = "1.4.9"
edition = "2021"
publish = false

[dependencies]
anyhow = "=1.0.104"
bytes = { version = "=1.12.1", features = ["serde"] }
dashmap = "=5.5.3"
evdev = "=0.12.2"
futures-util = { version = "=0.3.34", features = ["sink"] }
lazy_static = "=1.5.1"
libc = "=0.2.191"
log = "=0.4.35"
nix = { version = "=0.29.0", features = ["ioctl"] }
parity-tokio-ipc = "=0.9.0"
portable-pty = "0.8"
reqwest = { version = "=0.12.28", default-features = false, features = ["blocking", "http2", "native-tls", "rustls-tls", "socks"] }
serde = "=1.0.229"
serde_derive = "=1.0.229"
serde_json = "=1.0.154"
sysinfo = "=0.29.11"
tokio = { version = "=1.54.1", features = ["fs", "io-util", "macros", "net", "rt", "sync", "time"] }
tokio-util = { version = "=0.7.20", features = ["codec"] }
url = "=2.5.8"
uuid = { version = "=1.29.0", features = ["v4"] }
x11rb = "=0.13.2"
