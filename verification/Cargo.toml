[package]
name = "vocal_analyzer"
version = "0.1.0"
edition = "2021"
publish = false

[dependencies]
apodize = "=1.0.0"
eframe = { version = "=0.32.3", default-features = false, features = ["glow", "default_fonts", "x11"] }
egui_plot = "=0.33.0"
linear-predictive-coding = "=0.4.0"
ndarray = "=0.17.2"
pitch-detection = "=0.3.0"
rosc = "=0.11.4"
rpoly = "=0.2.9"
rustfft = "=6.4.1"
wasapi = "=0.19.0"
