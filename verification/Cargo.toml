[package]
name = "statuspage"
version = "0.1.0"
edition = "2021"
publish = false

[dependencies]
axum = { version = "0.8", default-features = false, features = ["http1", "json", "query", "tokio"] }
base64 = "0.22"
chrono = { version = "0.4", default-features = false, features = ["std", "clock", "alloc"] }
chrono-tz = "0.10"
console_error_panic_hook = "0.1"
console_log = "1"
dashmap = "6"
futures = "0.3"
hex = "0.4"
js-sys = "0.3"
leptos = { version = "0.8", features = ["csr"] }
leptos_meta = "0.8"
leptos_router = "0.8"
log = "0.4"
moka = { version = "0.12", features = ["future"] }
reqwest = { version = "0.12", default-features = false }
serde = { version = "1", features = ["derive"] }
serde_json = "1"
sha2 = "0.10"
tokio = { version = "1", features = ["rt-multi-thread", "macros", "net", "signal", "sync", "time"] }
tokio-util = "0.7"
tracing = "0.1"
url = "2"
utoipa = "5"
uuid = { version = "1", features = ["v4", "v7", "serde"] }
wasm-bindgen = "0.2"
wasm-bindgen-futures = "0.4"
web-sys = { version = "0.3", features = ["AbortController", "AbortSignal", "Document", "DomTokenList", "Element", "Headers", "Location", "Request", "RequestInit", "RequestMode", "Response", "Storage", "SubmitEvent", "Window"] }
