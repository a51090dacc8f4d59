[package]
name = "trivia_quiz"
version = "0.1.0"
edition = "2021"
publish = false

[dependencies]
rand = "0.8"
html-escape = "*"
ferris-says = "*"
text-tables = "*"
text_io = "*"
serde = { version = "*", features = ["derive"] }
tokio = { version = "*", features = ["macros", "rt-multi-thread"] }
reqwest = { version = "*", default-features = false, features = ["json", "rustls-tls"] }
