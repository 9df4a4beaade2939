[package]
name = "omnitouch"
version = "0.1.0"
edition = "2021"
publish = false

[dependencies]
once_cell = "1"
serde = { version = "1", features = ["derive"] }
serde_json = "1"

[dependencies.windows]
version = "=0.58.0"
features = [
    "Win32_Foundation",
    "Foundation_Numerics",
    "Win32_Graphics_Gdi",
    "Win32_Graphics_Direct2D",
    "Win32_Graphics_Direct2D_Common",
    "Win32_Graphics_DirectWrite",
    "Win32_Graphics_Dxgi_Common",
    "Win32_Graphics_Dwm",
    "Win32_System_Com",
    "Win32_System_LibraryLoader",
    "Win32_System_Registry",
    "Win32_UI_Controls",
    "Win32_UI_HiDpi",
    "Win32_UI_Input_KeyboardAndMouse",
    "Win32_UI_Shell",
    "Win32_UI_WindowsAndMessaging",
]
