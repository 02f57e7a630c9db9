[package]
name = "uuid_url_module"
version = "0.1.0"
edition = "2021"
publish = false

[dependencies]
once_cell = "=1.21.4"
ring = "=0.17.14"
rquickjs = { version = "=0.4.3", features = ["array-buffer", "loader"] }
url = "=2.5.8"
uuid = { version = "=1.29.0", features = ["v1", "v3", "v4", "v5"] }
uuid-simd = "=0.8.0"
