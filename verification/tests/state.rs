use stand_awhile::check_box::{
    current_check_mark_color, current_indicator_border_color, current_indicator_fill_color, invalidate_check_box_font,
    CheckBoxState,
};
use stand_awhile::countdown::invalidate_countdown_font;
use stand_awhile::font_cache::FontCache;
use stand_awhile::gdi_plus::{ensure_gdiplus_ok, GdiPlusError, GdiPlusSession};
use stand_awhile::hover::{classify_control_message, ControlMessage, HoverTracker, MouseMoveEffects};
use stand_awhile::window_proc::{
    WM_CLOSE, WM_ERASEBKGND, WM_LBUTTONUP, WM_MOUSELEAVE, WM_MOUSEMOVE, WM_NCCREATE, WM_NCDESTROY, WM_PAINT, WM_SETCURSOR,
};
use stand_awhile::hyper_link_text::{current_link_color, invalidate_hyper_link_text_font, HyperLinkTextState, LinkClickAction};
use stand_awhile::theme::rgb;
use stand_awhile::tray_icon::{
    TrayCallbackAction, TrayIcon, TrayIconCommand, TRAY_MENU_ABOUT_ID, TRAY_MENU_EXIT_ID, TRAY_MENU_OPEN_CONFIG_ID,
    TRAY_MENU_SHOW_ID, WM_CONTEXTMENU, WM_LBUTTONDBLCLK, WM_RBUTTONUP,
};

#[test]
fn hover_tracking_asks_once() {
    let mut tracker = HoverTracker::new();
    assert_eq!(tracker.on_mouse_move(), MouseMoveEffects { start_tracking: true, invalidate: true });
    assert_eq!(tracker.on_mouse_move(), MouseMoveEffects { start_tracking: false, invalidate: false });
    assert!(tracker.on_mouse_leave());
    assert!(!tracker.on_mouse_leave());
    assert_eq!(tracker, HoverTracker { hovered: false, tracking_mouse: false });
}

#[test]
fn check_box_toggles_on_click() {
    let mut state = CheckBoxState::new("Hide to tray", false);
    assert!(!state.is_checked());
    assert!(state.on_click());
    assert!(state.is_checked());
    state.on_mouse_move();
    assert!(state.hover.hovered);
    state.on_click();
    assert!(!state.is_checked());
    assert!(state.hover.hovered);
    assert_eq!(state.text, "Hide to tray");
}

#[test]
fn check_box_colors_follow_scheme_and_hover() {
    assert_eq!(current_indicator_border_color(true, true), rgb(196, 196, 196));
    assert_eq!(current_indicator_border_color(false, false), rgb(120, 120, 120));
    assert_eq!(current_indicator_fill_color(true, false), rgb(42, 42, 42));
    assert_eq!(current_indicator_fill_color(false, true), rgb(230, 230, 230));
    assert_eq!(current_check_mark_color(true), rgb(238, 189, 82));
    assert_eq!(current_check_mark_color(false), rgb(208, 141, 30));
}

#[test]
fn link_keeps_text_and_reports_clicks() {
    let mut link = HyperLinkTextState::new("https://example.com");
    assert_eq!(link.text(), "https://example.com");
    assert!(link.set_text("other"));
    assert_eq!(link.text(), "other");
    assert_eq!(link.on_mouse_move(), MouseMoveEffects { start_tracking: true, invalidate: true });
    assert!(link.is_hovered());
    assert!(link.on_mouse_leave());
    assert!(!link.is_hovered());
    assert_eq!(link.on_click(), LinkClickAction::RunHandler);
    assert_eq!(current_link_color(true, true), rgb(150, 200, 255));
    assert_eq!(current_link_color(false, false), rgb(0, 102, 204));
}

#[test]
fn fonts_are_released_once() {
    let mut cache = FontCache::new();
    assert_eq!(cache.cached(), None);
    cache.store(42);
    assert_eq!(cache.cached(), Some(42));
    assert_eq!(invalidate_countdown_font(&mut cache), Some(42));
    assert_eq!(invalidate_countdown_font(&mut cache), None);
    cache.store(7);
    assert_eq!(invalidate_check_box_font(&mut cache), Some(7));
    cache.store(8);
    assert_eq!(invalidate_hyper_link_text_font(&mut cache), Some(8));
    assert_eq!(cache.release(), None);
}

#[test]
fn gdi_plus_starts_once() {
    let mut session = GdiPlusSession::new();
    assert_eq!(session.can_start(), Ok(()));
    assert!(matches!(session.record_startup(3, 99), Err(GdiPlusError::StartupFailed(3))));
    assert_eq!(session.can_start(), Ok(()));
    assert!(session.record_startup(0, 99).is_ok());
    assert_eq!(session.can_start(), Err(GdiPlusError::AlreadyStarted));
    assert_eq!(session.shutdown(), Some(99));
    assert_eq!(session.shutdown(), None);
    assert_eq!(ensure_gdiplus_ok(0), Ok(()));
}

#[test]
fn tray_icon_routes_notifications_and_commands() {
    let icon = TrayIcon::create("Stand Awhile", "Show", "Open config", "About", "Exit");
    assert_eq!(icon.tooltip(), "Stand Awhile");
    assert_eq!(icon.handle_callback(WM_LBUTTONDBLCLK as isize), TrayCallbackAction::ShowMainWindow);
    assert_eq!(icon.handle_callback(WM_RBUTTONUP as isize), TrayCallbackAction::ShowContextMenu);
    assert_eq!(icon.handle_callback((0x0001_0000 | WM_CONTEXTMENU) as isize), TrayCallbackAction::ShowContextMenu);
    assert_eq!(icon.handle_callback(0x0200), TrayCallbackAction::Ignore);
    assert_eq!(icon.handle_command(TRAY_MENU_SHOW_ID), Some(TrayIconCommand::ShowMainWindow));
    assert_eq!(icon.handle_command(TRAY_MENU_EXIT_ID), Some(TrayIconCommand::Exit));
    assert_eq!(icon.handle_command(TRAY_MENU_ABOUT_ID), None);
    let items = icon.context_menu_items();
    assert_eq!(items.len(), 4);
    assert_eq!(items[1].id, TRAY_MENU_OPEN_CONFIG_ID);
    assert_eq!(items[1].text, "Open config");
    assert_eq!(items[3].text, "Exit");
}

#[test]
fn control_messages_are_classified() {
    assert_eq!(classify_control_message(WM_NCCREATE), ControlMessage::NcCreate);
    assert_eq!(classify_control_message(WM_PAINT), ControlMessage::Paint);
    assert_eq!(classify_control_message(WM_ERASEBKGND), ControlMessage::EraseBackground);
    assert_eq!(classify_control_message(WM_MOUSEMOVE), ControlMessage::MouseMove);
    assert_eq!(classify_control_message(WM_MOUSELEAVE), ControlMessage::MouseLeave);
    assert_eq!(classify_control_message(WM_LBUTTONUP), ControlMessage::LeftButtonUp);
    assert_eq!(classify_control_message(WM_SETCURSOR), ControlMessage::SetCursor);
    assert_eq!(classify_control_message(WM_NCDESTROY), ControlMessage::NcDestroy);
    assert_eq!(classify_control_message(WM_CLOSE), ControlMessage::Other);
    assert_eq!(classify_control_message(0x0201), ControlMessage::Other);
}
