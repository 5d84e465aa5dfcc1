[package]
name = "erect"
version = "0.1.0"
edition = "2021"
publish = false

[dependencies]
serde = { version = "=1.0.229", features = ["derive"] }
serde_json = "=1.0.154"
directories = "=5.0.1"
libm = "=0.2.16"
macroquad = { version = "=0.4.16", default-features = false }
claxon = "=0.4.3"
cpal = { version = "=0.15.3", default-features = false }
gilrs = { version = "0.11", default-features = false }
