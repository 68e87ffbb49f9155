[package]
name = "adp_config"
version = "0.1.0"
edition = "2021"
publish = false

[dependencies]
argh = "=0.1.19"
bytesize = "=2.7.0"
serde = { version = "=1.0.229", features = ["derive"] }
serde_json = "=1.0.154"
serde_yaml = "=0.9.34"
tinytemplate = "*"
tokio = { version = "=1.54.1", features = ["sync", "rt", "macros", "time", "fs"] }
uuid = { version = "=1.29.0", features = ["v4"] }
