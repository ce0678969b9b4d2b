[package]
name = "layline"
version = "0.2.0"
edition = "2021"
publish = false

[dependencies]
clap = "3.2"
flexi_logger = "0.22"
hyper = { version = "0.14", features = ["http1", "runtime", "server", "stream", "tcp"] }
log = "0.4"
rand = "0.8"
rand_core = "0.6"
regex = "1"
reqwest = { version = "0.11", default-features = false, features = ["rustls-tls"] }
tokio = { version = "1", features = ["full"] }
