[package]
name = "logpulse"
version = "0.1.0"
edition = "2021"
publish = false

[dependencies]
regex = "1"
serde_json = "1"
clap = { version = "4", features = ["derive"] }
clap_complete = "4"
crossterm = "0.28"
ratatui = "0.29"
tokio = { version = "1", features = ["rt-multi-thread", "macros", "sync", "io-util", "io-std", "process", "time", "fs"] }
linemux = "0.3"
atty = "0.2"
