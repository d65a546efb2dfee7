[package]
name = "gtasksprint"
version = "0.1.0"
edition = "2021"
publish = false

[dependencies]
anyhow = "*"
chrono = "*"
crossterm = "*"
directories = "*"
google-tasks1 = "*"
hyper-rustls = { version = "*", default-features = false, features = ["http1", "native-tokio", "ring"] }
hyper-util = { version = "*", features = ["client-legacy", "http1", "tokio"] }
hyphenation_commons = "*"
rustls = { version = "*", features = ["ring"] }
serde = { version = "*", features = ["derive"] }
termsize = "*"
textwrap = { version = "*", features = ["hyphenation"] }
tokio = { version = "*", features = ["macros", "rt-multi-thread"] }
toml = "*"
yup-oauth2 = "*"
