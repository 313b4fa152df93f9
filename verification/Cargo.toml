[package]
name = "contract_workflow"
version = "0.1.0"
edition = "2021"
publish = false

[dependencies]
anyhow = "1"
serde_json = "=1.0.151"
tokio = { version = "1", features = ["macros", "rt-multi-thread"] }
