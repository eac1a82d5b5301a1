[package]
name = "rtmp_relay"
version = "0.1.0"
edition = "2021"
publish = false

[dependencies]
byteorder = "1.5"
get_if_addrs = "0.5.3"
rml_amf0 = "0.3.0"
rml_rtmp = "0.8.0"
serde = { version = "1", features = ["derive"] }
sqlx = { version = "0.8", default-features = false, features = ["sqlite", "runtime-tokio", "migrate", "macros"] }
tokio = { version = "1", features = ["rt-multi-thread", "net", "io-util", "process", "sync", "time", "fs", "macros"] }
warp = "0.3"
