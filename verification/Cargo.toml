[package]
name = "xbase"
version = "0.1.0"
edition = "2021"
publish = false

[dependencies]
anyhow = "*"
async-stream = "*"
async-trait = "*"
bsp-server = "*"
derive-deref-rs = "*"
log = "*"
mlua = { version = "*", features = ["lua54", "vendored"] }
notify = "*"
once_cell = "*"
process-stream = "*"
serde = { version = "*", features = ["derive"] }
serde_json = "*"
strum = { version = "*", features = ["derive"] }
tap = "*"
tokio = { version = "*", features = ["full"] }
tokio-stream = "*"
url = "*"
wax = "*"
xclog = "*"
xcodebuild = "*"
xcodeproj = "*"
