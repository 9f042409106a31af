[package]
name = "eclair_tortoise"
version = "0.1.0"
edition = "2021"
publish = false

[dependencies]
itertools = "=0.15.0"
chrono = "=0.4.45"
clap = { version = "=4.6.7", features = ["derive", "env"] }
crossterm = "=0.25.0"
log = "=0.4.34"
log4rs = "=1.4.0"
num-format = "=0.4.4"
reqwest = { version = "=0.13.5", default-features = false, features = ["form"] }
scopeguard = "=1.2.0"
serde = { version = "=1.0.229", features = ["derive"] }
serde_json = "=1.0.151"
sled = "=0.34.7"
thiserror = "=2.0.21"
tokio = { version = "=1.53.2", features = ["macros", "rt-multi-thread", "time"] }
tui = "=0.19.0"
