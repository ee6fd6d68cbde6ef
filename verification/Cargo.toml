[package]
name = "flakehub_push"
version = "0.1.0"
edition = "2021"
publish = false

[dependencies]
base64 = "*"
clap = { version = "*", features = ["derive", "env"] }
flate2 = "*"
github-actions-oidc-claims = "*"
gix = "*"
reqwest = { version = "*", default-features = false, features = ["json", "rustls-tls"] }
ring = "*"
semver = "*"
serde = { version = "*", features = ["derive"] }
serde_json = "*"
spdx = "*"
tar = "*"
tempfile = "*"
tokio = { version = "*", features = ["macros", "rt-multi-thread", "process", "fs", "io-util"] }
url = "*"
uuid = { version = "*", features = ["v4"] }
