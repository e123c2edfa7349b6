[package]
name = "research_lab"
version = "0.1.0"
edition = "2021"
publish = false

[dependencies]
anyhow = "=1.0.104"
async-openai = { version = "=0.43.0", features = ["chat-completion"] }
async-trait = "=0.1.92"
axum = { version = "=0.7.9", features = ["ws"] }
clap = { version = "=4.6.7", features = ["derive"] }
dotenvy = "=0.15.7"
once_cell = "=1.21.4"
pocketflow_rs = "=0.1.0"
serde = { version = "=1.0.229", features = ["derive"] }
serde_json = "=1.0.154"
tavily = "=2.1.0"
tokio = { version = "=1.54.1", features = ["full"] }
tokio-stream = { version = "=0.1.19", features = ["sync"] }
tower-http = { version = "=0.5.2", features = ["cors"] }
utoipa = { version = "=4.2.3", features = ["axum_extras"] }
utoipa-swagger-ui = { version = "=7.1.0", features = ["axum", "vendored"] }
uuid = { version = "=1.29.0", features = ["v4"] }
