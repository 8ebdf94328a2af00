[package]
name = "topic_discovery"
version = "0.1.0"
edition = "2021"
publish = false

[dependencies]
discv5 = "=0.12.0"
enr = "=0.14.0"
sha2 = "=0.11.0"
clap = "=4.6.7"
log = "=0.4.34"
tokio = { version = "=1.53.2", features = ["rt-multi-thread", "macros", "time"] }
