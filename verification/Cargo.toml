[package]
name = "eyetrackvr_server"
version = "0.1.0"
edition = "2021"
publish = false

[dependencies]
android-usbser = "*"
android_logger = "*"
async-broadcast = "=0.7.2"
async-trait = "=0.1.92"
chrono = "=0.4.45"
clap = { version = "=4.6.7", features = ["derive"] }
futures = "=0.3.34"
hyper = { version = "=0.14.32", features = ["client", "server", "http1", "tcp", "stream"] }
image = { version = "=0.25.10", default-features = false, features = ["jpeg", "png"] }
log = "=0.4.34"
mime = "=0.3.17"
multipart-stream = "=0.1.2"
ndarray = "*"
ndk-context = "*"
nokhwa = "*"
openxr = "=0.22.0"
openxr-sys = "=0.14.0"
ort = { version = "=2.0.0-rc.15", default-features = false, features = ["std", "ndarray", "load-dynamic"] }
pollster = "=1.0.1"
quaternion-core = "=0.6.2"
rosc = "=0.11.4"
serde_json = "=1.0.154"
smallvec = "=1.16.4"
tokio = { version = "=1.54.1", features = ["full"] }
tokio-serial = "*"
tokio-stream = { version = "=0.1.19", features = ["sync"] }
tokio-util = { version = "=0.7.20", features = ["codec"] }
