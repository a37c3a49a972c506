use stand_awhile::about::{about_layout, centered_window_rect, github_link_rect};
use stand_awhile::button::{
    control_button_layouts, control_button_visual_states, controls_rect, current_button_colors, hit_test_control_button,
    is_prominent, pause_icon_bars, play_icon_points, reset_arrow_points, reset_icon_circle, ButtonColors, ControlButton,
    DARK_ACCENT_HOVER, LIGHT_BUTTON_FILL, LIGHT_DISABLED_FILL,
};
use stand_awhile::check_box::{check_box_indicator_rect, check_box_text_rect, check_box_window_size, check_mark_points};
use stand_awhile::countdown::countdown_rect;
use stand_awhile::geometry::{font_height, Point, Rect};
use stand_awhile::hyper_link_text::{link_measured_rect, link_window_size};
use stand_awhile::main_window::{centered_window_position, main_window_client_rect};
use stand_awhile::theme::{rgb, DARK_BACKGROUND, LIGHT_TEXT};

fn client() -> Rect {
    Rect { left: 0, top: 0, right: 800, bottom: 533 }
}

#[test]
fn buttons_are_centred_in_a_row() {
    let layouts = control_button_layouts(client());
    // diameter: min(800, 533) / 8 = 66; spacing 66 * 32 / 100 = 21; total 240.
    assert_eq!(layouts[0].kind, ControlButton::Play);
    assert_eq!(layouts[0].rect, Rect { left: 280, top: 309, right: 346, bottom: 375 });
    assert_eq!(layouts[1].rect, Rect { left: 367, top: 309, right: 433, bottom: 375 });
    assert_eq!(layouts[2].kind, ControlButton::Reset);
    assert_eq!(layouts[2].rect, Rect { left: 454, top: 309, right: 520, bottom: 375 });
}

#[test]
fn small_windows_keep_the_minimum_diameter() {
    let layouts = control_button_layouts(Rect { left: 0, top: 0, right: 100, bottom: 100 });
    assert_eq!(layouts[0].rect.right - layouts[0].rect.left, 48);
    // total width 48 * 3 + 15 * 2 = 174 is wider than the window: the row starts left of it.
    assert_eq!(layouts[0].rect.left, -37);
}

#[test]
fn controls_rect_surrounds_the_row() {
    assert_eq!(controls_rect(client()), Rect { left: 276, top: 305, right: 524, bottom: 379 });
}

#[test]
fn hit_test_finds_enabled_buttons_only() {
    assert_eq!(hit_test_control_button(client(), 313, 342, true, false, true), Some(ControlButton::Play));
    assert_eq!(hit_test_control_button(client(), 400, 342, true, false, true), None);
    assert_eq!(hit_test_control_button(client(), 400, 342, true, true, true), Some(ControlButton::Pause));
    assert_eq!(hit_test_control_button(client(), 487, 342, false, false, true), Some(ControlButton::Reset));
    assert_eq!(hit_test_control_button(client(), 281, 310, true, true, true), None);
    assert_eq!(hit_test_control_button(client(), 10, 10, true, true, true), None);
}

#[test]
fn disabled_buttons_are_never_hovered_or_pressed() {
    let states = control_button_visual_states(Some(ControlButton::Pause), Some(ControlButton::Play), true, false, true);
    assert!(states[0].enabled && !states[0].hovered && states[0].pressed);
    assert!(!states[1].enabled && !states[1].hovered && !states[1].pressed);
    assert!(states[2].enabled && !states[2].hovered && !states[2].pressed);
}

#[test]
fn button_colors_follow_state() {
    assert_eq!(
        current_button_colors(true, true, true, true, false),
        ButtonColors { fill: DARK_ACCENT_HOVER, border: DARK_ACCENT_HOVER, icon: DARK_BACKGROUND }
    );
    assert_eq!(current_button_colors(false, false, true, true, true).fill, LIGHT_DISABLED_FILL);
    let reset = current_button_colors(false, true, false, false, false);
    assert_eq!(reset.fill, LIGHT_BUTTON_FILL);
    assert_eq!(reset.icon, LIGHT_TEXT);
    assert_eq!(DARK_ACCENT_HOVER, rgb(238, 189, 82));
    assert_eq!(LIGHT_BUTTON_FILL, rgb(226, 226, 226));
    assert!(is_prominent(ControlButton::Play));
    assert!(!is_prominent(ControlButton::Reset));
}

#[test]
fn icons_scale_with_the_button() {
    let rect = Rect { left: 0, top: 0, right: 100, bottom: 100 };
    assert_eq!(play_icon_points(rect), [Point { x: 38, y: 29 }, Point { x: 38, y: 71 }, Point { x: 67, y: 50 }]);
    assert_eq!(
        pause_icon_bars(rect),
        [Rect { left: 34, top: 28, right: 46, bottom: 72 }, Rect { left: 56, top: 28, right: 68, bottom: 72 }]
    );
    assert_eq!(reset_icon_circle(rect), (Point { x: 50, y: 50 }, 24));
    assert_eq!(
        reset_arrow_points(rect, Point { x: 60, y: 30 }),
        [Point { x: 60, y: 30 }, Point { x: 51, y: 34 }, Point { x: 58, y: 40 }]
    );
    let small = Rect { left: 0, top: 0, right: 40, bottom: 40 };
    assert_eq!(pause_icon_bars(small)[0].right - pause_icon_bars(small)[0].left, 6);
}

#[test]
fn countdown_is_placed_above_the_middle() {
    let rect = countdown_rect(client(), Rect { left: 0, top: 0, right: 300, bottom: 120 });
    // centre at 533 * 45 / 100 = 239, half height 60, padding 40.
    assert_eq!(rect, Rect { left: 0, top: 139, right: 800, bottom: 339 });
    let small_text = countdown_rect(client(), Rect { left: 0, top: 0, right: 10, bottom: 20 });
    assert_eq!(small_text.top, 239 - 10 - 12);
}

#[test]
fn font_heights_follow_the_dpi() {
    assert_eq!(font_height(80, 96), -106);
    assert_eq!(font_height(11, 96), -14);
    assert_eq!(font_height(18, 144), -36);
}

#[test]
fn check_box_parts_are_laid_out() {
    assert_eq!(check_box_window_size(Rect { left: 0, top: 0, right: 100, bottom: 20 }), (130, 28));
    assert_eq!(check_box_window_size(Rect { left: 0, top: 0, right: 50, bottom: 10 }), (80, 24));
    let client = Rect { left: 0, top: 0, right: 130, bottom: 28 };
    let indicator = check_box_indicator_rect(client);
    assert_eq!(indicator, Rect { left: 2, top: 6, right: 18, bottom: 22 });
    assert_eq!(
        check_mark_points(indicator),
        [Point { x: 5, y: 14 }, Point { x: 9, y: 18 }, Point { x: 15, y: 10 }]
    );
    assert_eq!(check_box_text_rect(client).left, 28);
}

#[test]
fn links_are_padded() {
    let measured = link_measured_rect(Rect { left: 0, top: 0, right: 200, bottom: 16 });
    assert_eq!(measured, Rect { left: 0, top: 0, right: 204, bottom: 20 });
    assert_eq!(link_window_size(measured), (224, 37));
}

#[test]
fn about_window_is_laid_out() {
    let layout = about_layout();
    assert_eq!(layout.title, Rect { left: 28, top: 24, right: 432, bottom: 58 });
    assert_eq!(layout.body.top, 72);
    assert_eq!(github_link_rect(50, 224, 37), Rect { left: 84, top: 159, right: 308, bottom: 196 });
    let owner = Rect { left: 100, top: 100, right: 900, bottom: 700 };
    let window = Rect { left: -8, top: -31, right: 468, bottom: 258 };
    assert_eq!(centered_window_rect(owner, window), (262, 255, 476, 289));
}

#[test]
fn main_window_is_centred_on_screen() {
    assert_eq!(main_window_client_rect(), Rect { left: 0, top: 0, right: 800, bottom: 533 });
    assert_eq!(centered_window_position(Rect { left: -8, top: -31, right: 808, bottom: 541 }, 1920, 1080), (552, 254));
    assert_eq!(centered_window_position(Rect { left: 0, top: 0, right: 801, bottom: 10 }, 800, 10), (0, 0));
}
