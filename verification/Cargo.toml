[package]
name = "signet-client"
version = "0.1.0"
edition = "2021"
publish = false

[dependencies]
aes-gcm = "0.10"
age = { version = "0.11", features = ["armor"] }
base64 = "0.22"
hyper-util = { version = "0.1", features = ["tokio"] }
prost-types = "0.14"
rustls = { version = "0.23", default-features = false, features = ["ring", "std", "tls12"] }
rustls-pemfile = "2"
serde = { version = "1", features = ["derive"] }
serde_yaml_ng = "0.10"
sha2 = "0.10"
spiffe = "0.16"
spiffe-rustls = "0.7"
thiserror = "2"
tokio = { version = "1", features = ["full"] }
tokio-rustls = { version = "0.26", default-features = false, features = ["ring", "tls12"] }
tokio-stream = "0.1"
tokio-util = "0.7"
tonic = { version = "0.14", features = ["tls-ring", "tls-native-roots"] }
