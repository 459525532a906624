[package]
name = "stacc"
version = "0.1.0"
edition = "2021"
publish = false

[dependencies]
actix-cors = "0.6"
actix-web = { version = "4", default-features = false, features = ["macros", "cookies"] }
chrono = "0.4"
chrono-tz = "0.8"
dotenv = "0.15"
env_logger = "0.10"
futures-util = "0.3"
gloo-console = "0.2"
gloo-net = "0.2"
gloo-timers = { version = "0.2", features = ["futures"] }
gloo-utils = "0.1"
hex = "0.4"
js-sys = "0.3"
leaflet = "*"
log = "0.4"
mongodb = "2"
pulldown-cmark = { version = "0.9", default-features = false }
rand = "0.8"
reqwest = { version = "0.11", default-features = false, features = ["json", "rustls-tls"] }
serde = { version = "1", features = ["derive"] }
serde_json = "1"
sha2 = "0.10"
tokio = { version = "1", features = ["macros", "rt-multi-thread", "time"] }
wasm-bindgen = "0.2"
wasm-bindgen-futures = "0.4"
wasm-cookies = "0.2"
web-sys = { version = "0.3", features = ["CssStyleDeclaration", "Document", "Element", "Event", "HtmlElement", "HtmlHeadElement", "HtmlTableCellElement", "HtmlTableElement", "HtmlTableRowElement", "MutationObserver", "MutationObserverInit", "Node", "Window"] }
yew = { version = "0.20", features = ["csr"] }
yew-router = "0.17"
