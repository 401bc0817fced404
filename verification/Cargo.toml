[package]
name = "anki"
version = "0.1.0"
edition = "2021"
publish = false

[dependencies]
url = "2"
inflections = "1"
flate2 = "1"
zip = { version = "2", default-features = false }
serde = { version = "1", features = ["derive"] }
serde_json = "1"
serde_tuple = "*"
syn = { version = "2", features = ["full"] }
prettyplease = "0.2"
reqwest = { version = "0.12", default-features = false }
tokio = { version = "1", features = ["rt", "time", "macros"] }
tokio-util = { version = "0.7", features = ["io"] }
futures = "0.3"
bytes = "1"
http = "1"
async-compression = { version = "0.4", features = ["tokio", "zstd"] }
prost = "0.13"
prost-reflect = "0.14"
anyhow = "1"
itertools = "*"
tracing = "0.1"
