[package]
name = "hermes_webui_desktop"
version = "0.1.0"
edition = "2021"
publish = false

[dependencies]
regex = "1"
url = "2"
serde = { version = "1", features = ["derive"] }
serde_json = "1"
ureq = "2"
rustls = { version = "0.23", default-features = false, features = ["ring", "std", "tls12"] }
rustls-native-certs = "0.8"
webpki-roots = "0.26"
base64 = "0.22"
log = "0.4"
libc = "0.2"
x11-dl = "2"
