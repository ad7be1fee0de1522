[package]
name = "holo_rea"
version = "0.1.0"
edition = "2021"
publish = false

[dependencies]
hdk = "*"
serde = { version = "1", features = ["derive"] }
structopt = "0.3"
tokio = { version = "1", features = ["rt-multi-thread", "sync", "time", "macros"] }
ctrlc = { version = "3", features = ["termination"] }
