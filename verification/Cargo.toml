[package]
name = "aviutl_output"
version = "0.1.0"
edition = "2021"
publish = false

[dependencies]
rust-ini = "=0.21.3"
palette = "=0.7.7"
png = "=0.17.16"
gif = "=0.13.3"
libavif = { version = "=0.14.0", default-features = false }
libwebp-sys = "=0.14.4"
taffy = "=0.15.0"
widestring = "=1.2.1"
windows = { version = "0.59", features = ["Win32_Foundation", "Win32_Graphics_Gdi", "Win32_System_LibraryLoader", "Win32_System_Memory", "Win32_UI_Controls", "Win32_UI_Input_KeyboardAndMouse", "Win32_UI_WindowsAndMessaging"] }
