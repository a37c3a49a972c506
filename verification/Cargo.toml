[package]
name = "stand_awhile"
version = "0.1.0"
edition = "2021"
publish = false

[dependencies]
serde = { version = "=1.0.229", features = ["derive"] }
serde_json = "=1.0.154"
windows = { version = "=0.62.2", features = ["Win32_Foundation", "Win32_Graphics_Gdi", "Win32_Graphics_Dwm", "Win32_Graphics_GdiPlus", "Win32_System_LibraryLoader", "Win32_UI_WindowsAndMessaging", "Win32_UI_Shell", "Win32_UI_Shell_PropertiesSystem", "Win32_System_Com", "Win32_System_Com_StructuredStorage", "Win32_System_Registry", "Win32_Globalization", "Win32_UI_Input_KeyboardAndMouse", "Win32_UI_Controls", "Win32_System_WinRT", "Win32_System_Variant", "Win32_Storage_EnhancedStorage", "Data_Xml_Dom", "UI_Notifications", "Foundation"] }
