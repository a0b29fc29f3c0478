[package]
name = "mal_query"
version = "0.1.0"
edition = "2021"
publish = false

[dependencies]
url = "2"
pkce = "*"
serde = { version = "1", features = ["derive"] }
serde_json = "1"
reqwest = { version = "*", default-features = false }
tokio = { version = "1", features = ["macros", "rt-multi-thread"] }
tiny_http = "*"
open = "*"
