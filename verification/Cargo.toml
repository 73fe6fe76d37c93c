[package]
name = "reply_graph"
version = "0.1.0"
edition = "2021"
publish = false

[dependencies]
petgraph = "*"
chrono = "*"
rand = "*"
serde = { version = "*", features = ["derive"] }
egg-mode = { version = "*", default-features = false, features = ["rustls"] }
tokio = { version = "*", features = ["rt", "macros"] }
futures = "*"
structopt = "*"
color-eyre = "*"
