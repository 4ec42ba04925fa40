[package]
name = "linkbox"
version = "0.1.0"
edition = "2021"
publish = false

[dependencies]
home = "0.5"
reqwest = { version = "0.11", features = ["json"] }
rustyline = "8"
rustyline-derive = "0.4"
serde = { version = "1", features = ["derive"] }
serde_json = "1"
structopt = "0.3"
thiserror = "1"
tokio = { version = "1", features = ["macros", "rt-multi-thread"] }
unicode-width = "0.1"
