[package]
name = "authflow"
version = "0.1.0"
edition = "2021"
publish = false

[dependencies]
anyhow = "=1.0.104"
reqwest = { version = "=0.13.5", default-features = false, features = ["cookies", "form"] }
reqwest_cookie_store = "=0.10.0"
tokio = { version = "=1.53.2", features = ["macros", "rt"] }

[dev-dependencies]
url = "=2.5.8"
