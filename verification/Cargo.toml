[package]
name = "ifoundthephone"
version = "0.1.0"
edition = "2021"
publish = false

[dependencies]
ring = "=0.17.14"
hex = "=0.4.3"
rand = "=0.8.8"
base64 = "=0.13.1"
serde_json = "=1.0.154"
time = "=0.3.55"
dotenv = "=0.15.0"
tokio-postgres = "=0.7.18"
rocket = "=0.5.2"
rocket_dyn_templates = { version = "=0.1.0", features = ["handlebars"] }
lettre = { version = "=0.10.4", default-features = false, features = ["builder", "smtp-transport", "rustls-tls", "hostname"] }
image = { version = "0.23", default-features = false, features = ["png"] }
imageproc = { version = "0.22", default-features = false }
qrcode = { version = "0.12", default-features = false, features = ["image"] }
rusttype = "0.9"
