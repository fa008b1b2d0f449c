[package]
name = "clickhouse_c"
version = "0.1.0"
edition = "2021"
publish = false

[dependencies]
rustls = { version = "0.23", features = ["aws_lc_rs", "std", "tls12", "logging"] }
thiserror = "2"
tokio = { version = "1", features = ["net", "io-util"] }
tokio-rustls = "0.26"
webpki-roots = "1"
