[package]
name = "rust-template"
version = "0.1.0"
edition = "2021"
publish = false

[dependencies]
clap = { version = "4", features = ["derive"] }
clap_complete = "4"
clap-markdown = "*"
thiserror = "*"
tiny-update-check = "*"
tracing = "0.1"
tracing-subscriber = { version = "0.3", features = ["env-filter"] }
