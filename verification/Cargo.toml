[package]
name = "reading_sync"
version = "0.1.0"
edition = "2021"
publish = false

[dependencies]
git2 = { version = "*", default-features = false }
reqwest = { version = "*", default-features = false, features = ["json"] }
rustop = "*"
serde_json = "*"
tokio = { version = "*", default-features = false, features = ["macros", "rt-multi-thread"] }
