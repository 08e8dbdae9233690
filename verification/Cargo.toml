[package]
name = "github_projects_planner_sync"
version = "0.1.0"
edition = "2021"
publish = false

[dependencies]
axum = "=0.8.9"
config = { version = "=0.14.1", default-features = false, features = ["yaml"] }
graphql_client = { version = "=0.16.0", default-features = false }
lambda_http = "=1.3.2"
reqwest = { version = "=0.12.28", default-features = false, features = ["json", "rustls-tls"] }
serde = { version = "=1.0.229", features = ["derive"] }
serde_json = "=1.0.154"
tokio = { version = "=1.54.1", features = ["macros", "rt-multi-thread"] }
