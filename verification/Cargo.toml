[package]
name = "ogier_epub"
version = "0.1.0"
edition = "2021"
publish = false

[dependencies]
quick-xml = "=0.37.5"
url = { version = "=2.5.8", features = ["serde"] }
zip = { version = "=9.0.5", default-features = false, features = ["deflate"] }
cssparser = "0.35"
arrayvec = "=0.7.8"
thiserror = "=2.0.21"
serde = { version = "=1.0.229", features = ["derive"] }
serde_json = "=1.0.154"
twox-hash = "=2.1.5"
