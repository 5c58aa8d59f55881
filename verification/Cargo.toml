[package]
name = "kdl_fmt"
version = "0.1.0"
edition = "2021"
publish = false

[dependencies]
kdl = { version = "*", features = ["v1"] }
clap = { version = "*", features = ["derive"] }
clap-stdin = "*"
miette = "*"
tracing-subscriber = { version = "*", features = ["env-filter"] }
