[package]
name = "github_pr_review"
version = "0.1.0"
edition = "2021"
publish = false

[dependencies]
tera = { version = "=1.20.1", default-features = false }
log = "0.4"
anyhow = "1"
dotenv = "0.15"
http_req = "=0.14.6"
tokio = { version = "1", features = ["macros", "rt"] }
github-flows = "=0.8.1"
openai-flows = "=0.9.1"
flowsnet-platform-sdk = "=0.1.6"
