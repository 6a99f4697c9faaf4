[package]
name = "tm2077"
version = "0.1.0"
edition = "2021"
publish = false

[dependencies]
imbl = "=7.0.2"
serde = { version = "=1.0.229", features = ["derive"] }
eframe = { version = "=0.37.0", default-features = false, features = ["default_fonts", "glow", "x11", "persistence"] }
egui = { version = "=0.37.0", default-features = false, features = ["default_fonts"] }
cpal = "=0.16.0"
pitch-detection = "=0.3.0"
anyhow = "=1.0.104"
log = "=0.4.35"
env_logger = { version = "=0.11.11", default-features = false }
wasm-bindgen = "=0.2.130"
wasm-bindgen-futures = "=0.4.80"
web-sys = { version = "=0.3.107", features = ["AnalyserNode", "AudioContext", "AudioNode", "BaseAudioContext", "Document", "Element", "HtmlCanvasElement", "MediaDevices", "MediaStream", "MediaStreamAudioSourceNode", "MediaStreamConstraints", "MediaStreamTrack", "Navigator", "Window"] }
console_error_panic_hook = "0.1"
