[package]
name = "mavlink_server"
version = "0.1.0"
edition = "2021"
publish = false

[dependencies]
url = "=2.5.8"
mavlink = { version = "=0.17.1", default-features = false, features = ["std", "ardupilotmega", "serde"] }
clap = { version = "=4.6.7", features = ["derive"] }
regex = "=1.13.1"
chrono = { version = "=0.4.45", default-features = false, features = ["std"] }
serde_json = "1"
shellexpand = "3"
