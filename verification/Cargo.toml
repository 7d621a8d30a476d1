[package]
name = "new_folder"
version = "0.1.0"
edition = "2021"
publish = false

[dependencies]
fltk = "*"
fltk-theme = "*"
native-dialog = "*"
windows-sys = { version = "*", features = ["Win32_Foundation", "Win32_Graphics_Dwm"] }
