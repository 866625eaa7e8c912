[package]
name = "daw_core"
version = "0.1.0"
edition = "2021"
publish = false

[dependencies]
anyhow = "=1.0.104"
cpal = "=0.15.3"
egui = "0.22"
rand = "=0.8.8"
rtrb = "=0.2.3"
strum = { version = "=0.25.0", features = ["derive"] }
vst = "=0.4.0"
