[package]
name = "ssh_session"
version = "0.1.0"
edition = "2021"
publish = false

[dependencies]
async-ssh2-tokio = "=0.8.10"
async-trait = "=0.1.92"
russh = "=0.43.0"
russh-keys = "=0.43.0"
tokio = { version = "=1.54.1", features = ["io-util", "net", "rt"] }
