[package]
name = "aipack"
version = "0.1.0"
edition = "2021"
publish = false

[dependencies]
genai = "*"
mlua = { version = "*", features = ["lua54", "vendored"] }
serde_json = "*"
tokio = { version = "*", features = ["rt-multi-thread", "macros"] }
uuid = { version = "*", features = ["v4"] }
zip = "*"
