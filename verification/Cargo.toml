[package]
name = "winprint_ext"
version = "0.1.0"
edition = "2021"
publish = false

[dependencies]
thiserror = "*"
windows = { version = "=0.61.3", features = ["Win32_Foundation", "Win32_System_Com", "Win32_Graphics_Gdi", "Win32_Graphics_Imaging", "Win32_Graphics_Direct2D", "Win32_Graphics_Direct2D_Common", "Win32_Graphics_Dxgi_Common"] }
windows-numerics = "=0.2.0"
