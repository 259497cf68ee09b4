[package]
name = "backend_core"
version = "0.1.0"
edition = "2021"
publish = false

[dependencies]
clap = { version = "4.1", default-features = false, features = ["std", "derive"] }
thiserror = "1.0"
