[package]
name = "demokit"
version = "0.1.0"
edition = "2021"
publish = false

[dependencies]
uuid = { version = "=1.29.1", features = ["v4", "serde"] }
serde = { version = "=1.0.229", features = ["derive"] }
serde_json = "=1.0.154"
thiserror = "=1.0.69"
tokio = { version = "=1.54.1", features = ["fs", "sync", "rt-multi-thread", "macros", "time"] }
once_cell = "=1.21.4"
directories-next = "=2.0.0"
anyhow = "=1.0.104"
log = "=0.4.35"
simplelog = "=0.12.2"
futures = { version = "=0.3.34", features = ["thread-pool"] }
async-std = "1"
rayon = "1"
crossbeam-skiplist = "0.1"
smol = "2"
monoio = "0.2"
time = { version = "=0.3.55", features = ["local-offset"] }
rand = "=0.8.8"
mio = { version = "0.8", features = ["net", "os-poll"] }
ring = "0.17"
env_logger = "0.10"
quiche = "0.20"
