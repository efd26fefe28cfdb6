[package]
name = "text_to_code_lib"
version = "0.1.0"
edition = "2021"
publish = false

[dependencies]
arboard = "*"
chrono = "=0.4.45"
cpal = "*"
enigo = "*"
hound = "=3.5.1"
log = "=0.4.34"
rubato = "=0.16.2"
serde = { version = "=1.0.229", features = ["derive"] }
serde_json = "=1.0.154"
tokio = { version = "1", features = ["rt"] }
uuid = { version = "=1.29.0", features = ["v4"] }
x-win = "*"
