use stand_awhile::button::ControlButton;
use stand_awhile::i18n::Language;
use stand_awhile::tray_icon::{TrayIcon, TrayIconCommand, TRAY_MENU_ABOUT_ID, TRAY_MENU_EXIT_ID, TRAY_MENU_OPEN_CONFIG_ID, TRAY_MENU_SHOW_ID, WM_TRAYICON};
use stand_awhile::window_proc::{
    balloon_after_toast, classify_message, finish_notification, handle_tray_menu_command, menu_language, pause_enabled, play_enabled,
    reset_enabled, route_command, set_initial_remaining_seconds, should_hide_on_close, CommandRoute, CountdownTimer,
    ButtonStates, FinishNotification, TimerState, TimerStep, TrayMenuCommand, WindowMessage, DEFAULT_INITIAL_REMAINING_SECONDS,
    TIMER_ID, WM_CLOSE, WM_CREATE, WM_DESTROY, WM_ERASEBKGND, WM_NCDESTROY, WM_PAINT, WM_SETTINGCHANGE, WM_SIZE,
    WM_THEMECHANGED, WM_TIMER,
};
use stand_awhile::about::{about_message_action, AboutAction};

#[test]
fn new_countdown_waits_at_twenty_minutes() {
    let timer = CountdownTimer::new();
    assert_eq!(timer.state(), TimerState::NotStarted);
    assert_eq!(timer.remaining_seconds(), DEFAULT_INITIAL_REMAINING_SECONDS);
    assert_eq!(timer.initial_remaining_seconds(), 1200);
    let buttons = timer.button_states();
    assert!(buttons.play && !buttons.pause && !buttons.reset);
}

fn buttons(play: bool, pause: bool, reset: bool) -> TimerStep {
    TimerStep::UpdateButtons(ButtonStates { play, pause, reset })
}

#[test]
fn ticks_are_ignored_until_play() {
    let mut timer = CountdownTimer::new();
    assert_eq!(timer.tick(TIMER_ID), Some(vec![]));
    assert_eq!(timer.remaining_seconds(), 1200);
}

#[test]
fn other_timers_are_not_handled() {
    let mut timer = CountdownTimer::new();
    timer.activate_button(ControlButton::Play);
    assert!(timer.tick(TIMER_ID + 1).is_none());
    assert_eq!(timer.remaining_seconds(), 1200);
}

#[test]
fn play_starts_the_timer_and_ticks_count_down() {
    let mut timer = CountdownTimer::new();
    set_initial_remaining_seconds(&mut timer, 3);
    let steps = timer.activate_button(ControlButton::Play);
    assert_eq!(steps, vec![TimerStep::StartTimer, buttons(false, true, false)]);

    let steps = timer.tick(TIMER_ID).unwrap();
    assert_eq!(timer.remaining_seconds(), 2);
    assert_eq!(steps, vec![buttons(false, true, true), TimerStep::Redraw(3), TimerStep::Redraw(2)]);
}

#[test]
fn countdown_finishes_after_remaining_ticks() {
    let mut timer = CountdownTimer::new();
    set_initial_remaining_seconds(&mut timer, 3);
    timer.activate_button(ControlButton::Play);
    timer.tick(TIMER_ID);
    timer.tick(TIMER_ID);
    assert_eq!(timer.state(), TimerState::Running);
    let steps = timer.tick(TIMER_ID).unwrap();
    assert_eq!(timer.state(), TimerState::Finished);
    assert_eq!(timer.remaining_seconds(), 0);
    assert_eq!(
        steps,
        vec![
            TimerStep::StopTimer,
            TimerStep::NotifyFinished,
            buttons(true, false, true),
            TimerStep::Redraw(1),
            TimerStep::Redraw(0),
        ]
    );
    assert_eq!(timer.tick(TIMER_ID), Some(vec![]));
    assert_eq!(timer.remaining_seconds(), 0);
}

#[test]
fn play_after_finish_restarts_from_the_start() {
    let mut timer = CountdownTimer::new();
    set_initial_remaining_seconds(&mut timer, 1);
    timer.activate_button(ControlButton::Play);
    timer.tick(TIMER_ID);
    let steps = timer.activate_button(ControlButton::Play);
    assert_eq!(
        steps,
        vec![TimerStep::Redraw(0), TimerStep::Redraw(1), TimerStep::StartTimer, buttons(false, true, false)]
    );
    assert_eq!(timer.remaining_seconds(), 1);
    assert_eq!(timer.state(), TimerState::Running);
}

#[test]
fn zero_length_countdown_finishes_on_first_tick() {
    let mut timer = CountdownTimer::new();
    set_initial_remaining_seconds(&mut timer, 0);
    timer.activate_button(ControlButton::Play);
    let steps = timer.tick(TIMER_ID).unwrap();
    assert_eq!(
        steps,
        vec![TimerStep::StopTimer, TimerStep::NotifyFinished, buttons(true, false, false), TimerStep::Redraw(0)]
    );
    assert_eq!(timer.state(), TimerState::Finished);
}

#[test]
fn pause_then_play_resumes_where_it_stood() {
    let mut timer = CountdownTimer::new();
    timer.activate_button(ControlButton::Play);
    timer.tick(TIMER_ID);
    let steps = timer.activate_button(ControlButton::Pause);
    assert_eq!(steps, vec![TimerStep::StopTimer, buttons(true, false, true)]);
    assert_eq!(timer.state(), TimerState::Paused);
    timer.tick(TIMER_ID);
    assert_eq!(timer.remaining_seconds(), 1199);
    timer.activate_button(ControlButton::Play);
    assert_eq!(timer.remaining_seconds(), 1199);
}

#[test]
fn reset_restores_the_start() {
    let mut timer = CountdownTimer::new();
    timer.activate_button(ControlButton::Play);
    timer.tick(TIMER_ID);
    timer.tick(TIMER_ID);
    let steps = timer.activate_button(ControlButton::Reset);
    assert_eq!(
        steps,
        vec![TimerStep::StopTimer, TimerStep::Redraw(1198), TimerStep::Redraw(1200), buttons(true, false, false)]
    );
    assert_eq!(timer.state(), TimerState::NotStarted);
    assert_eq!(timer.remaining_seconds(), 1200);
}

#[test]
fn button_enablement_follows_the_state() {
    assert!(play_enabled(TimerState::NotStarted));
    assert!(play_enabled(TimerState::Paused));
    assert!(play_enabled(TimerState::Finished));
    assert!(!play_enabled(TimerState::Running));
    assert!(pause_enabled(TimerState::Running));
    assert!(!pause_enabled(TimerState::Paused));
    assert!(reset_enabled(5, 10));
    assert!(!reset_enabled(10, 10));
}

#[test]
fn messages_are_classified() {
    assert_eq!(classify_message(WM_TIMER), WindowMessage::Timer);
    assert_eq!(classify_message(WM_CLOSE), WindowMessage::Close);
    assert_eq!(classify_message(WM_TRAYICON), WindowMessage::TrayIcon);
    assert_eq!(classify_message(WM_SETTINGCHANGE), WindowMessage::SettingsChanged);
    assert_eq!(classify_message(WM_THEMECHANGED), WindowMessage::SettingsChanged);
    assert_eq!(classify_message(0x0001), WindowMessage::Other);
}

#[test]
fn commands_are_routed() {
    let icon = TrayIcon::create("tip", "Show", "Config", "About", "Exit");
    assert_eq!(handle_tray_menu_command(TRAY_MENU_OPEN_CONFIG_ID), Some(TrayMenuCommand::OpenConfigDirectory));
    assert_eq!(handle_tray_menu_command(TRAY_MENU_ABOUT_ID | 0x1_0000), Some(TrayMenuCommand::ShowAbout));
    assert_eq!(route_command(TRAY_MENU_SHOW_ID, Some(&icon)), CommandRoute::TrayIcon(TrayIconCommand::ShowMainWindow));
    assert_eq!(route_command(TRAY_MENU_EXIT_ID, Some(&icon)), CommandRoute::TrayIcon(TrayIconCommand::Exit));
    assert_eq!(route_command(TRAY_MENU_EXIT_ID, None), CommandRoute::Default);
    assert_eq!(route_command(TRAY_MENU_ABOUT_ID, None), CommandRoute::Menu(TrayMenuCommand::ShowAbout));
    assert_eq!(route_command(7, Some(&icon)), CommandRoute::Default);
}

#[test]
fn close_hides_only_with_the_tray_box_checked() {
    assert!(should_hide_on_close(Some(true)));
    assert!(!should_hide_on_close(Some(false)));
    assert!(!should_hide_on_close(None));
}

#[test]
fn finished_countdown_is_announced() {
    assert_eq!(finish_notification(true, Some(Language::Chinese)), FinishNotification::FlashWindow);
    assert_eq!(finish_notification(false, Some(Language::Chinese)), FinishNotification::Notify(Language::Chinese));
    assert_eq!(finish_notification(false, None), FinishNotification::Nothing);
    assert_eq!(menu_language(None), Language::English);
    assert_eq!(menu_language(Some(Language::Chinese)), Language::Chinese);
}

#[test]
fn balloon_only_when_toast_fails() {
    assert!(balloon_after_toast(false));
    assert!(!balloon_after_toast(true));
}

#[test]
fn about_window_messages() {
    assert_eq!(about_message_action(WM_CREATE, false), AboutAction::ReturnZero);
    assert_eq!(about_message_action(WM_DESTROY, true), AboutAction::ReturnZero);
    assert_eq!(about_message_action(WM_PAINT, true), AboutAction::Paint);
    assert_eq!(about_message_action(WM_ERASEBKGND, true), AboutAction::SkipErase);
    assert_eq!(about_message_action(WM_SIZE, true), AboutAction::Layout);
    assert_eq!(about_message_action(WM_SETTINGCHANGE, true), AboutAction::RefreshTheme);
    assert_eq!(about_message_action(WM_THEMECHANGED, true), AboutAction::RefreshTheme);
    assert_eq!(about_message_action(WM_THEMECHANGED, false), AboutAction::ReturnZero);
    assert_eq!(about_message_action(WM_CLOSE, true), AboutAction::DestroyWindow);
    assert_eq!(about_message_action(WM_NCDESTROY, false), AboutAction::ReleaseState);
    assert_eq!(about_message_action(WM_TIMER, true), AboutAction::Default);
    assert_eq!(about_message_action(0x0200, true), AboutAction::Default);
}
