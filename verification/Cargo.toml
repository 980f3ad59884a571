[package]
name = "kubeclient"
version = "0.2.0"
edition = "2021"
publish = false

[dependencies]
base64 = "=0.13.1"
k8s-openapi = { version = "=0.28.0", features = ["latest"] }
openssl = "=0.10.81"
reqwest = { version = "=0.12.28", default-features = false, features = ["blocking", "json", "native-tls"] }
serde = { version = "=1.0.229", features = ["derive"] }
serde_json = "=1.0.154"
serde_yaml = "=0.9.34"
url = "=1.7.2"
walkdir = "=2.5.0"
