[package]
name = "substack_dl"
version = "0.1.0"
edition = "2021"
publish = false

[dependencies]
chrono = "0.4"
html2md = "*"
rss = "*"
reqwest = { version = "*", default-features = false }
tokio = { version = "1", features = ["macros", "rt-multi-thread"] }
promptly = "*"
