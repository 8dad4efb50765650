[package]
name = "maple_limit"
version = "0.1.0"
edition = "2021"
publish = false

[dependencies]
iced = { version = "=0.14.0", default-features = false, features = ["canvas", "svg", "tiny-skia", "x11", "thread-pool"] }
i_overlay = "=9.1.0"
serde = { version = "=1.0.229", features = ["derive"] }
serde_json = "=1.0.154"
svg = "=0.18.0"
ureq = { version = "=2.12.1", features = ["json"] }
rfd = { version = "=0.17.2", default-features = false, features = ["xdg-portal"] }
directories = "=6.0.0"
