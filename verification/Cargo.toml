[package]
name = "rocketmq-send"
version = "0.1.0"
edition = "2021"
publish = false

[dependencies]
rocketmq-common = "=0.2.0"
rocketmq-remoting = "=0.2.0"
tokio = { version = "1", features = ["macros", "net", "rt-multi-thread", "sync"] }
