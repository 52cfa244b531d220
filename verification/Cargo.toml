[package]
name = "prettysure"
version = "0.1.0"
edition = "2021"
publish = false

[dependencies]
async-compat = "=0.2.6"
bevy = { version = "=0.7.0", default-features = false, features = ["render", "bevy_winit", "png", "x11"] }
# bevy 0.7 derives need syn's "full" feature and do not ask for it; darling does.
darling = "=0.13.4"
futures-lite = "=1.13.0"
html-escape = "=0.2.15"
rand = "=0.8.8"
reqwest = { version = "=0.11.27", features = ["json"] }
serde = { version = "=1.0.229", features = ["derive"] }
