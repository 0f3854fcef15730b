[package]
name = "criminal_recognizer"
version = "0.1.0"
edition = "2021"
publish = false

[dependencies]
url = "=2.5.8"
chrono = "=0.4.45"
tokio = { version = "=1.54.1", features = ["sync", "rt", "rt-multi-thread", "macros", "process", "io-util", "time"] }
tokio-stream = "=0.1.19"
futures = "=0.3.34"
async-trait = "=0.1.92"
image = { version = "=0.25.10", default-features = false, features = ["jpeg", "png"] }
iced = { version = "=0.14.0", default-features = false, features = ["tiny-skia", "image", "tokio", "x11"] }
