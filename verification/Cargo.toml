[package]
name = "eruser"
version = "0.1.0"
edition = "2021"
publish = false

[dependencies]
regex = "=1.13.1"
url = "=2.5.8"
mail-parser = "=0.11.9"
serde_json = "=1.0.154"
serde = { version = "=1.0.229", features = ["derive"] }
chrono = { version = "=0.4.45", default-features = false, features = ["clock", "std"] }
tokio = { version = "=1.54.1", features = ["rt-multi-thread", "macros", "net", "time"] }
tokio-util = { version = "=0.7.20", default-features = false }
sqlx = { version = "=0.9.0", default-features = false, features = ["sqlite", "runtime-tokio", "chrono", "migrate", "macros"] }
argon2 = "=0.6.0"
async-imap = { version = "=0.12.0", default-features = false, features = ["runtime-tokio"] }
async-trait = "=0.1.92"
futures = "=0.3.34"
reqwest = { version = "=0.12.28", default-features = false, features = ["json", "rustls-tls"] }
rustls = { version = "=0.23.46", default-features = false, features = ["ring", "std"] }
tokio-rustls = { version = "=0.26.6", default-features = false, features = ["ring"] }
rustls-native-certs = "=0.8.5"
webpki-roots = "=1.0.10"
minijinja = "=3.0.5"
thiserror = "=2.0.21"
tracing = "=0.1.44"
tracing-subscriber = { version = "=0.3.23", features = ["env-filter"] }
clap = { version = "=4.6.7", features = ["derive"] }
