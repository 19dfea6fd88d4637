[package]
name = "wstomp"
version = "0.1.0"
edition = "2021"
publish = false

[dependencies]
anyhow = "1"
async-stomp = "*"
awc = { version = "3", features = ["rustls"] }
actix-codec = "0.5"
actix-http = { version = "3", features = ["ws"] }
actix-rt = "2"
bytes = "1"
futures-util = "0.3"
tokio = { version = "1", features = ["sync", "time", "macros"] }
tokio-rustls = "0.23"
tokio-util = { version = "0.7", features = ["codec"] }
webpki-roots = "0.22"
