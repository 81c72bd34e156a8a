[package]
name = "md_edit"
version = "0.1.0"
edition = "2021"
publish = false

[dependencies]
shellexpand = "=3.1.2"
egui = "=0.27.2"
epaint = "=0.27.2"
egui_commonmark = "=0.16.1"
egui_file = "=0.17.0"
egui-toast = "=0.13.0"
catppuccin-egui = { version = "=5.7.0", default-features = false, features = ["egui27"] }
pulldown-cmark = { version = "=0.10.3", default-features = false, features = ["html"] }
thiserror = "=1.0.69"
