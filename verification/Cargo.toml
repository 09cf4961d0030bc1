[package]
name = "pipeserve"
version = "0.1.0"
edition = "2021"
publish = false

[dependencies]
http = "*"
is_executable = "*"
chrono = "*"
clap = { version = "*", features = ["derive"] }
cmd_lib = "*"
http-body-util = "*"
hyper = { version = "*", features = ["server", "http1"] }
hyper-util = { version = "*", features = ["tokio"] }
rustls = { version = "*", default-features = false, features = ["ring", "std", "tls12"] }
rustls-pemfile = "*"
tempfile = "*"
tokio = { version = "*", features = ["full"] }
tokio-rustls = { version = "*", default-features = false, features = ["ring", "tls12"] }
