[package]
name = "hyper_bed_caller"
version = "0.1.0"
edition = "2021"
publish = false

[dependencies]
chrono = "=0.4.45"
chrono-tz = "=0.10.4"
cron = "=0.17.0"
rand = "=0.7.3"
rtdlib = { version = "=1.5.5", features = ["sys"] }
serde = { version = "=1.0.229", features = ["derive"] }
serde_json = "=1.0.154"
uname = "=0.1.1"
