[package]
name = "unifi_search_tool"
version = "0.1.0"
edition = "2021"
publish = false

[dependencies]
zeroize = "=1.9.1"
reqwest = { version = "=0.13.5", features = ["blocking", "json", "cookies"] }
simd-json = "=0.18.1"
flume = "=0.12.0"
tokio = { version = "=1.54.1", features = ["rt"] }
eframe = { version = "=0.37.0", default-features = false, features = ["glow", "default_fonts", "x11"] }
egui = { version = "=0.37.0", default-features = false }
