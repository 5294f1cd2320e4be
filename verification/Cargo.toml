[package]
name = "ec2_list"
version = "0.1.0"
edition = "2021"
publish = false

[dependencies]
chrono = "0.4"
rusoto_core = "0.48"
rusoto_ec2 = "0.48"
tokio = { version = "1", features = ["macros", "rt-multi-thread"] }
