[package]
name = "rollingrequests"
version = "0.1.0"
edition = "2021"
publish = false

[dependencies]
reqwest = { version = "*", default-features = false, features = ["blocking", "http2", "multipart"] }
tokio = { version = "*", default-features = false, features = ["rt"] }

[dev-dependencies]
mockito = "*"
