[package]
name = "thirtyfour_sync"
version = "0.27.1"
edition = "2021"
publish = false

[dependencies]
thirtyfour = { version = "=0.27.3", default-features = false, features = ["tokio-runtime"] }
stringmatch = "=0.3.3"
serde = { version = "1", features = ["derive"] }
serde_json = "1"
base64 = "=0.13.1"
reqwest = { version = "=0.11.27", default-features = false, features = ["blocking", "json"] }
log = "0.4"
