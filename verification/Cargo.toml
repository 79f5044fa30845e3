[package]
name = "sirius_alpha"
version = "0.1.0"
edition = "2021"
publish = false

[dependencies]
anyhow = "=1.0.104"
attohttpc = { version = "=0.31.0", default-features = false, features = ["compress", "json"] }
either = "=1.19.0"
embedded-hal = "=0.2.7"
embedded-svc = "=0.29.0"
esp-idf-hal = "=0.47.0"
esp-idf-svc = "=0.53.0"
esp-idf-sys = "=0.38.1"
fern = { version = "=0.7.1", features = ["colored"] }
lazy_static = "=1.5.1"
log = "=0.4.34"
serde = { version = "=1.0.229", features = ["derive"] }
serde_json = "=1.0.154"
thiserror = "=1.0.69"
