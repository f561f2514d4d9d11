[package]
name = "greentic_dist"
version = "0.1.0"
edition = "2021"
publish = false

[dependencies]
anyhow = "=1.0.104"
async-trait = "=0.1.92"
clap = { version = "=4.6.7", features = ["derive"] }
dirs-next = "=2.0.0"
greentic-interfaces-guest = "*"
greentic-types = "*"
oci-distribution = { version = "=0.11.0", default-features = false, features = ["rustls-tls"] }
reqwest = { version = "=0.12.28", default-features = false, features = ["rustls-tls"] }
serde = { version = "=1.0.229", features = ["derive"] }
serde_json = "=1.0.154"
sha2 = "=0.10.9"
thiserror = "=1.0.69"
