pub mod about; pub mod button; pub mod check_box; pub mod config; pub mod countdown; pub mod font_cache; pub mod gdi_plus; pub mod geometry; pub mod hover; pub mod hyper_link_text; pub mod i18n; pub mod main_window; pub mod text; pub mod theme; pub mod toast; pub mod tray_icon; pub mod wide; pub mod window_proc;

