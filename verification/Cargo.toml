[package]
name = "cosmic_screenshot"
version = "0.1.0"
edition = "2021"
publish = false

[dependencies]
chrono = "=0.4.45"
dirs = "=7.0.0"
url = "2"
clap = { version = "4", features = ["derive"] }
ashpd = { version = "=0.13.13", default-features = false, features = ["tokio", "screenshot"] }
tokio = { version = "1", features = ["rt", "macros"] }
zbus = { version = "5", default-features = false, features = ["tokio"] }
