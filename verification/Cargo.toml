[package]
name = "content_query"
version = "0.1.0"
edition = "2021"
publish = false

[dependencies]
async-trait = "0.1"
rusoto_core = { version = "0.48", default-features = false, features = ["rustls"] }
rusoto_credential = "0.48"
rusoto_s3 = { version = "0.48", default-features = false, features = ["rustls"] }
tokio = { version = "1", features = ["macros", "rt-multi-thread", "io-util"] }
