[package]
name = "pdflens"
version = "0.1.0"
edition = "2021"
publish = false

[dependencies]
base64 = "*"
color-eyre = "*"
eyre = "*"
hayro = "*"
pdf-extract = "*"
rmcp = { version = "*", features = ["server", "macros", "transport-io"] }
schemars = "*"
serde = { version = "*", features = ["derive"] }
tokio = { version = "*", features = ["macros", "rt-multi-thread", "fs", "sync"] }
tracing = "*"
tracing-error = "*"
tracing-subscriber = { version = "*", features = ["env-filter", "fmt"] }
url = "*"
