[package]
name = "xplane_web_api"
version = "0.1.0"
edition = "2021"
publish = false

[dependencies]
futures-util = { version = "=0.3.34", default-features = false, features = ["sink", "std"] }
progenitor-client = "=0.15.1"
reqwest = { version = "=0.13.5", default-features = false, features = ["json"] }
serde = { version = "=1.0.229", features = ["derive"] }
serde_json = "=1.0.154"
thiserror = "=2.0.21"
tokio = { version = "=1.54.1", features = ["net", "rt", "macros"] }
tokio-tungstenite = "=0.30.0"

[dev-dependencies]
bytes = "=1.12.1"
http = "=1.5.0"
