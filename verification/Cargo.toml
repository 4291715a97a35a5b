[package]
name = "shared"
version = "0.1.0"
edition = "2021"
publish = false

[dependencies]
chrono = "=0.4.45"
serde = { version = "=1.0.229", features = ["derive"] }
axum = "=0.6.20"
axum-extra = { version = "=0.4.2", features = ["spa"] }
sqlx = { version = "=0.6.3", default-features = false, features = ["postgres", "runtime-tokio-rustls", "macros", "migrate"] }
yew = { version = "=0.20.0", features = ["csr"] }
stylist = { version = "=0.12.1", features = ["yew"] }
gloo-console = "=0.2.3"
gloo-net = "=0.2.6"
wasm-bindgen-futures = "=0.4.80"
web-sys = { version = "=0.3.107", features = ["HtmlDialogElement", "HtmlInputElement", "HtmlSelectElement"] }
