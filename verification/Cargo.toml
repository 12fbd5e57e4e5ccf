[package]
name = "may_future"
version = "0.1.0"
edition = "2021"
publish = false

[dependencies]
may_waiter = "*"
lazy_static = "1"
may = "0.3"
tokio-executor = "0.2.0-alpha.1"
tokio-reactor = "0.2.0-alpha.1"
tokio-sync = "0.2.0-alpha.1"
tokio-threadpool = "0.2.0-alpha.1"
tokio-timer = "0.3.0-alpha.1"
tracing-core = "0.1"
