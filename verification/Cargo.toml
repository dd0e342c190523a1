[package]
name = "remember"
version = "0.1.0"
edition = "2021"
publish = false

[dependencies]
serde = { version = "1", features = ["derive"] }
tokio = { version = "1", features = ["macros", "rt-multi-thread", "net"] }
axum = "0.7"
sqlx = { version = "0.7", features = ["sqlite", "runtime-tokio"] }
tower-http = { version = "0.5", features = ["cors"] }
leptos = { version = "0.6", features = ["csr"] }
gloo-net = "0.5"
js-sys = "0.3"
