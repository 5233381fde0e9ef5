[package]
name = "page_logic"
version = "0.1.0"
edition = "2021"
publish = false

[dependencies]
chrono = "=0.4.45"
console_log = "=1.1.0"
leptos = { version = "=0.4.10", features = ["csr"] }
leptos_meta = { version = "=0.4.10", features = ["csr"] }
leptos_router = { version = "=0.4.10", features = ["csr"] }
log = "=0.4.34"
reqwasm = "=0.5.0"
serde = { version = "=1.0.229", features = ["derive"] }
serde_json = "=1.0.154"
tracing = "=0.1.44"
