[package]
name = "shiftpaper"
version = "0.1.0"
edition = "2021"
publish = false

[dependencies]
blake3 = "=1.8.7"
directories = "=6.0.0"
toml_edit = "=0.22.27"
toml = "=0.8.23"
serde = { version = "=1.0.229", features = ["derive"] }
serde_json = "=1.0.154"
anyhow = "=1.0.104"
clap = { version = "=4.6.7", features = ["derive", "env"] }
image = { version = "=0.25.10", default-features = false, features = ["png", "jpeg", "webp"] }
tracing = "=0.1.44"
tracing-subscriber = { version = "=0.3.23", features = ["env-filter"] }
ureq = "=3.5.1"
indicatif = "=0.17.11"
wgpu = "=23.0.1"
smithay-client-toolkit = { version = "=0.19.2", default-features = false, features = ["calloop"] }
wayland-client = { version = "=0.31.15", features = ["system", "dlopen"] }
wayland-protocols = { version = "=0.32.13", features = ["client", "staging"] }
calloop = "=0.13.0"
calloop-wayland-source = "=0.3.0"
raw-window-handle = "=0.6.2"
pollster = "=0.4.0"
bytemuck = "=1.25.2"
nix = { version = "=0.29.0", features = ["signal"] }
ort = { version = "=2.0.0-rc.15", default-features = false, features = ["load-dynamic", "api-17"] }
