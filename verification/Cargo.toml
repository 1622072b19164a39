[package]
name = "libibus-rs"
version = "0.1.0"
edition = "2021"
publish = false

[dependencies]
quick-xml = "0.37"
zbus = { version = "5", default-features = false, features = ["tokio"] }
zvariant = "5"
tokio = { version = "1", features = ["rt-multi-thread", "macros", "sync", "time"] }
async-trait = "0.1"
futures-util = "0.3"
log = "0.4"
thiserror = "2"
serde = { version = "1", features = ["derive"] }
