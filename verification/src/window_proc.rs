use vstd::prelude::*;

use crate::button::{button_command_spec, button_from_command, ControlButton};
use crate::i18n::Language;
use crate::tray_icon::{
    command_id, command_id_of, TrayIcon, TrayIconCommand, TRAY_MENU_ABOUT_ID, TRAY_MENU_OPEN_CONFIG_ID,
    WM_TRAYICON,
};

verus! {

/// The identifier of the one-second countdown timer of the main window.
pub const TIMER_ID: usize = 1;

/// The countdown length, in seconds, before any configuration is applied.
pub const DEFAULT_INITIAL_REMAINING_SECONDS: u32 = 20 * 60;

/// Where the countdown stands.
#[derive(Clone, Copy, Debug, PartialEq, Eq, Structural)]
pub enum TimerState {
    NotStarted,
    Running,
    Paused,
    Finished,
}

/// Which of the three control buttons can be pressed.
#[derive(Clone, Copy, Debug, PartialEq, Eq, Structural)]
pub struct ButtonStates {
    pub play: bool,
    pub pause: bool,
    pub reset: bool,
}

/// The countdown of the main window: its state, the seconds left and the
/// length it starts from.
pub struct CountdownTimer {
    state: TimerState,
    remaining: u32,
    initial: u32,
}

/// The mathematical model of a countdown.
pub struct TimerView {
    pub state: TimerState,
    pub remaining: u32,
    pub initial: u32,
}

impl View for CountdownTimer {
    type V = TimerView;

    closed spec fn view(&self) -> TimerView {
        TimerView { state: self.state, remaining: self.remaining, initial: self.initial }
    }
}

/// One thing the window does after the countdown has changed; the window
/// does them in the order given.
#[derive(Clone, Copy, Debug, PartialEq, Eq, Structural)]
pub enum TimerStep {
    /// The one-second system timer is (re)started.
    StartTimer,
    /// The system timer is killed.
    StopTimer,
    /// The user is told that the time is up.
    NotifyFinished,
    /// The countdown area of the given remaining-second value is redrawn.
    Redraw(u32),
    /// The control buttons are enabled as given.
    UpdateButtons(ButtonStates),
}

/// The countdown is never above the length it starts from.
pub open spec fn timer_inv(v: TimerView) -> bool {
    v.remaining <= v.initial
}

/// The model after one tick of the one-second timer.
pub open spec fn tick_view(v: TimerView) -> TimerView {
    if v.state == TimerState::Running {
        let left: u32 = if v.remaining > 0 { (v.remaining - 1) as u32 } else { 0 };
        TimerView {
            state: if left == 0 { TimerState::Finished } else { TimerState::Running },
            remaining: left,
            initial: v.initial,
        }
    } else {
        v
    }
}

/// The model after a control button is pressed.
pub open spec fn press_view(v: TimerView, button: ControlButton) -> TimerView {
    match button {
        ControlButton::Play => TimerView {
            state: TimerState::Running,
            remaining: if v.remaining == 0 { v.initial } else { v.remaining },
            initial: v.initial,
        },
        ControlButton::Pause => TimerView {
            state: TimerState::Paused,
            remaining: v.remaining,
            initial: v.initial,
        },
        ControlButton::Reset => TimerView {
            state: TimerState::NotStarted,
            remaining: v.initial,
            initial: v.initial,
        },
    }
}

/// The model after `n` ticks.
pub open spec fn ticks_view(v: TimerView, n: nat) -> TimerView
    decreases n,
{
    if n == 0 {
        v
    } else {
        ticks_view(tick_view(v), (n - 1) as nat)
    }
}

/// Which buttons can be pressed in a given model.
pub open spec fn button_states_of(v: TimerView) -> ButtonStates {
    ButtonStates {
        play: v.state != TimerState::Running,
        pause: v.state == TimerState::Running,
        reset: v.remaining != v.initial,
    }
}

/// What a tick asks of the window, in order. A countdown that does not run
/// asks for nothing. A running one that reaches zero first has the timer
/// stopped and the user told; then the buttons are updated, the old value's
/// area is redrawn, and the new value's where it differs.
pub open spec fn tick_steps(v: TimerView) -> Seq<TimerStep> {
    if v.state == TimerState::Running {
        let w = tick_view(v);
        (if w.remaining == 0 {
            seq![TimerStep::StopTimer, TimerStep::NotifyFinished]
        } else {
            Seq::empty()
        }) + seq![TimerStep::UpdateButtons(button_states_of(w)), TimerStep::Redraw(v.remaining)]
            + (if w.remaining != v.remaining {
            seq![TimerStep::Redraw(w.remaining)]
        } else {
            Seq::empty()
        })
    } else {
        Seq::empty()
    }
}

/// What a button press asks of the window, in order; the buttons are always
/// updated last. Play redraws the countdown first where it starts over from
/// zero, then starts the timer; Pause stops the timer; Reset stops the timer,
/// then redraws the old value's area and the starting length's.
pub open spec fn press_steps(v: TimerView, button: ControlButton) -> Seq<TimerStep> {
    let buttons = TimerStep::UpdateButtons(button_states_of(press_view(v, button)));
    match button {
        ControlButton::Play => (if v.remaining == 0 {
            seq![TimerStep::Redraw(0), TimerStep::Redraw(v.initial)]
        } else {
            Seq::empty()
        }) + seq![TimerStep::StartTimer, buttons],
        ControlButton::Pause => seq![TimerStep::StopTimer, buttons],
        ControlButton::Reset => seq![
            TimerStep::StopTimer,
            TimerStep::Redraw(v.remaining),
            TimerStep::Redraw(v.initial),
            buttons,
        ],
    }
}

/// Play can be pressed unless the countdown runs.
pub fn play_enabled(timer_state: TimerState) -> (enabled: bool)
    ensures
        enabled == (timer_state != TimerState::Running),
{
    match timer_state {
        TimerState::NotStarted | TimerState::Paused | TimerState::Finished => true,
        TimerState::Running => false,
    }
}

/// Pause can be pressed only while the countdown runs.
pub fn pause_enabled(timer_state: TimerState) -> (enabled: bool)
    ensures
        enabled == (timer_state == TimerState::Running),
{
    match timer_state {
        TimerState::Running => true,
        _ => false,
    }
}

/// Reset can be pressed whenever the countdown is away from its starting length.
pub fn reset_enabled(remaining_seconds: u32, initial_remaining_seconds: u32) -> (enabled: bool)
    ensures
        enabled == (remaining_seconds != initial_remaining_seconds),
{
    remaining_seconds != initial_remaining_seconds
}

/// Sets the countdown length, and the seconds left, to `seconds`; the state is kept.
pub fn set_initial_remaining_seconds(timer: &mut CountdownTimer, seconds: u32)
    ensures
        final(timer)@.initial == seconds,
        final(timer)@.remaining == seconds,
        final(timer)@.state == old(timer)@.state,
        timer_inv(final(timer)@),
{
    timer.initial = seconds;
    timer.remaining = seconds;
}

impl CountdownTimer {
    /// A countdown that has not started, of the default length.
    pub fn new() -> (timer: Self)
        ensures
            timer@.state == TimerState::NotStarted,
            timer@.remaining == DEFAULT_INITIAL_REMAINING_SECONDS,
            timer@.initial == DEFAULT_INITIAL_REMAINING_SECONDS,
            timer_inv(timer@),
    {
        CountdownTimer {
            state: TimerState::NotStarted,
            remaining: DEFAULT_INITIAL_REMAINING_SECONDS,
            initial: DEFAULT_INITIAL_REMAINING_SECONDS,
        }
    }

    /// The state of the countdown.
    pub fn state(&self) -> (state: TimerState)
        ensures
            state == self@.state,
    {
        self.state
    }

    /// The seconds left.
    pub fn remaining_seconds(&self) -> (seconds: u32)
        ensures
            seconds == self@.remaining,
    {
        self.remaining
    }

    /// The length the countdown starts from.
    pub fn initial_remaining_seconds(&self) -> (seconds: u32)
        ensures
            seconds == self@.initial,
    {
        self.initial
    }

    /// Which control buttons can be pressed now.
    pub fn button_states(&self) -> (states: ButtonStates)
        ensures
            states == button_states_of(self@),
    {
        ButtonStates {
            play: play_enabled(self.state),
            pause: pause_enabled(self.state),
            reset: reset_enabled(self.remaining, self.initial),
        }
    }

    /// Handles a `WM_TIMER` message for the timer `timer_id`. Another timer's
    /// message is not handled: the result is `None` and nothing changes.
    /// Otherwise the countdown takes one tick and the result is what the
    /// window then does, in order.
    pub fn tick(&mut self, timer_id: usize) -> (steps: Option<Vec<TimerStep>>)
        ensures
            timer_id != TIMER_ID ==> steps is None && final(self)@ == old(self)@,
            timer_id == TIMER_ID ==> steps is Some && final(self)@ == tick_view(old(self)@)
                && steps->0@ == tick_steps(old(self)@),
            timer_inv(old(self)@) ==> timer_inv(final(self)@),
    {
        if timer_id != TIMER_ID {
            return None;
        }
        let mut steps: Vec<TimerStep> = Vec::new();
        if self.state != TimerState::Running {
            assert(steps@ =~= tick_steps(old(self)@));
            return Some(steps);
        }
        let previous_remaining = self.remaining;
        self.remaining = self.remaining.saturating_sub(1);
        let current_remaining = self.remaining;
        if current_remaining == 0 {
            self.state = TimerState::Finished;
            steps.push(TimerStep::StopTimer);
            steps.push(TimerStep::NotifyFinished);
        }
        let buttons = self.button_states();
        steps.push(TimerStep::UpdateButtons(buttons));
        steps.push(TimerStep::Redraw(previous_remaining));
        if current_remaining != previous_remaining {
            steps.push(TimerStep::Redraw(current_remaining));
        }
        assert(steps@ =~= tick_steps(old(self)@));
        Some(steps)
    }

    /// Handles a press of a control button. Play resumes the countdown, from
    /// its starting length when none is left; Pause holds it; Reset brings it
    /// back to its starting length, not started. The result is what the
    /// window then does, in order; it always ends by updating the buttons.
    pub fn activate_button(&mut self, button: ControlButton) -> (steps: Vec<TimerStep>)
        ensures
            final(self)@ == press_view(old(self)@, button),
            steps@ == press_steps(old(self)@, button),
            timer_inv(old(self)@) ==> timer_inv(final(self)@),
    {
        let previous_remaining = self.remaining;
        let mut steps: Vec<TimerStep> = Vec::new();
        match button {
            ControlButton::Play => {
                let initial_remaining = self.initial;
                if previous_remaining == 0 {
                    self.remaining = initial_remaining;
                    steps.push(TimerStep::Redraw(previous_remaining));
                    steps.push(TimerStep::Redraw(initial_remaining));
                }
                self.state = TimerState::Running;
                steps.push(TimerStep::StartTimer);
            },
            ControlButton::Pause => {
                self.state = TimerState::Paused;
                steps.push(TimerStep::StopTimer);
            },
            ControlButton::Reset => {
                let initial_remaining = self.initial;
                self.remaining = initial_remaining;
                self.state = TimerState::NotStarted;
                steps.push(TimerStep::StopTimer);
                steps.push(TimerStep::Redraw(previous_remaining));
                steps.push(TimerStep::Redraw(initial_remaining));
            },
        }
        let buttons = self.button_states();
        steps.push(TimerStep::UpdateButtons(buttons));
        assert(steps@ =~= press_steps(old(self)@, button));
        steps
    }
}


/// `WM_CREATE`.
pub const WM_CREATE: u32 = 0x0001;
/// `WM_DESTROY`.
pub const WM_DESTROY: u32 = 0x0002;
/// `WM_SIZE`.
pub const WM_SIZE: u32 = 0x0005;
/// `WM_ERASEBKGND`.
pub const WM_ERASEBKGND: u32 = 0x0014;
/// `WM_CLOSE`.
pub const WM_CLOSE: u32 = 0x0010;
/// `WM_SETCURSOR`.
pub const WM_SETCURSOR: u32 = 0x0020;
/// `WM_NCCREATE`.
pub const WM_NCCREATE: u32 = 0x0081;
/// `WM_MOUSEMOVE`.
pub const WM_MOUSEMOVE: u32 = 0x0200;
/// `WM_LBUTTONUP`.
pub const WM_LBUTTONUP: u32 = 0x0202;
/// `WM_MOUSELEAVE`.
pub const WM_MOUSELEAVE: u32 = 0x02A3;
/// `WM_PAINT`.
pub const WM_PAINT: u32 = 0x000F;
/// `WM_SETTINGCHANGE`.
pub const WM_SETTINGCHANGE: u32 = 0x001A;
/// `WM_NCDESTROY`.
pub const WM_NCDESTROY: u32 = 0x0082;
/// `WM_COMMAND`.
pub const WM_COMMAND: u32 = 0x0111;
/// `WM_TIMER`.
pub const WM_TIMER: u32 = 0x0113;
/// `WM_DPICHANGED`.
pub const WM_DPICHANGED: u32 = 0x02E0;
/// `WM_THEMECHANGED`.
pub const WM_THEMECHANGED: u32 = 0x031A;

/// The messages the main window handles.
#[derive(Clone, Copy, Debug, PartialEq, Eq, Structural)]
pub enum WindowMessage {
    Paint,
    Timer,
    Command,
    TrayIcon,
    Close,
    DpiChanged,
    SettingsChanged,
    Destroy,
    NcDestroy,
    /// Any other message, left to the default window procedure.
    Other,
}

/// Which handled message a message number is; a settings change and a theme
/// change are handled alike.
pub fn classify_message(msg: u32) -> (message: WindowMessage)
    ensures
        message == (if msg == WM_PAINT {
            WindowMessage::Paint
        } else if msg == WM_TIMER {
            WindowMessage::Timer
        } else if msg == WM_COMMAND {
            WindowMessage::Command
        } else if msg == WM_TRAYICON {
            WindowMessage::TrayIcon
        } else if msg == WM_CLOSE {
            WindowMessage::Close
        } else if msg == WM_DPICHANGED {
            WindowMessage::DpiChanged
        } else if msg == WM_SETTINGCHANGE || msg == WM_THEMECHANGED {
            WindowMessage::SettingsChanged
        } else if msg == WM_DESTROY {
            WindowMessage::Destroy
        } else if msg == WM_NCDESTROY {
            WindowMessage::NcDestroy
        } else {
            WindowMessage::Other
        }),
{
    if msg == WM_PAINT {
        WindowMessage::Paint
    } else if msg == WM_TIMER {
        WindowMessage::Timer
    } else if msg == WM_COMMAND {
        WindowMessage::Command
    } else if msg == WM_TRAYICON {
        WindowMessage::TrayIcon
    } else if msg == WM_CLOSE {
        WindowMessage::Close
    } else if msg == WM_DPICHANGED {
        WindowMessage::DpiChanged
    } else if msg == WM_SETTINGCHANGE || msg == WM_THEMECHANGED {
        WindowMessage::SettingsChanged
    } else if msg == WM_DESTROY {
        WindowMessage::Destroy
    } else if msg == WM_NCDESTROY {
        WindowMessage::NcDestroy
    } else {
        WindowMessage::Other
    }
}

/// The tray menu commands the main window handles itself.
#[derive(Clone, Copy, Debug, PartialEq, Eq, Structural)]
pub enum TrayMenuCommand {
    /// Open the configuration directory.
    OpenConfigDirectory,
    /// Show the About window.
    ShowAbout,
}

/// Where a `WM_COMMAND` goes.
#[derive(Clone, Copy, Debug, PartialEq, Eq, Structural)]
pub enum CommandRoute {
    /// The window's own tray menu commands.
    Menu(TrayMenuCommand),
    /// A command the tray icon handles.
    TrayIcon(TrayIconCommand),
    /// A press of a control button.
    Button(ControlButton),
    /// Left to the default window procedure.
    Default,
}

/// The tray menu command the main window handles for a `WM_COMMAND`, if any.
pub fn handle_tray_menu_command(wparam: usize) -> (command: Option<TrayMenuCommand>)
    ensures
        command == (if command_id(wparam) == TRAY_MENU_OPEN_CONFIG_ID {
            Some(TrayMenuCommand::OpenConfigDirectory)
        } else if command_id(wparam) == TRAY_MENU_ABOUT_ID {
            Some(TrayMenuCommand::ShowAbout)
        } else {
            None::<TrayMenuCommand>
        }),
{
    let id = command_id_of(wparam);
    if id == TRAY_MENU_OPEN_CONFIG_ID {
        Some(TrayMenuCommand::OpenConfigDirectory)
    } else if id == TRAY_MENU_ABOUT_ID {
        Some(TrayMenuCommand::ShowAbout)
    } else {
        None
    }
}

/// What a `WM_COMMAND` comes to when the window's own menu commands and the
/// tray icon's do not take it.
pub open spec fn button_route(wparam: usize) -> CommandRoute {
    match button_command_spec(wparam) {
        Some(b) => CommandRoute::Button(b),
        None => CommandRoute::Default,
    }
}

/// Routes a `WM_COMMAND`: the window's own menu commands first, then, where
/// the window has its state, the tray icon's, then the control buttons';
/// anything else goes to the default window procedure.
pub fn route_command(wparam: usize, tray_icon: Option<&TrayIcon>) -> (route: CommandRoute)
    ensures
        route == (match handle_tray_menu_command_spec(wparam) {
            Some(c) => CommandRoute::Menu(c),
            None => match tray_icon {
                Some(_) => match tray_icon_command_spec(wparam) {
                    Some(t) => CommandRoute::TrayIcon(t),
                    None => button_route(wparam),
                },
                None => button_route(wparam),
            },
        }),
{
    if let Some(command) = handle_tray_menu_command(wparam) {
        return CommandRoute::Menu(command);
    }
    if let Some(icon) = tray_icon {
        if let Some(command) = icon.handle_command(wparam) {
            return CommandRoute::TrayIcon(command);
        }
    }
    match button_from_command(wparam) {
        Some(button) => CommandRoute::Button(button),
        None => CommandRoute::Default,
    }
}

/// The window's own tray menu command for a `wparam`.
pub open spec fn handle_tray_menu_command_spec(wparam: usize) -> Option<TrayMenuCommand> {
    if command_id(wparam) == TRAY_MENU_OPEN_CONFIG_ID {
        Some(TrayMenuCommand::OpenConfigDirectory)
    } else if command_id(wparam) == TRAY_MENU_ABOUT_ID {
        Some(TrayMenuCommand::ShowAbout)
    } else {
        None
    }
}

/// The tray icon's own command for a `wparam`.
pub open spec fn tray_icon_command_spec(wparam: usize) -> Option<TrayIconCommand> {
    if command_id(wparam) == crate::tray_icon::TRAY_MENU_SHOW_ID {
        Some(TrayIconCommand::ShowMainWindow)
    } else if command_id(wparam) == crate::tray_icon::TRAY_MENU_EXIT_ID {
        Some(TrayIconCommand::Exit)
    } else {
        None
    }
}

/// The language of messages shown from the tray menu: the window's, or
/// English where the window has no state.
pub fn menu_language(window_language: Option<Language>) -> (language: Language)
    ensures
        language == (match window_language {
            Some(l) => l,
            None => Language::English,
        }),
{
    match window_language {
        Some(language) => language,
        None => Language::English,
    }
}

/// Whether closing the main window hides it in the tray instead: exactly when
/// the window has its state and the tray check box is checked.
pub fn should_hide_on_close(tray_check_box_checked: Option<bool>) -> (hide: bool)
    ensures
        hide == (tray_check_box_checked == Some(true)),
{
    match tray_check_box_checked {
        Some(checked) => checked,
        None => false,
    }
}

/// How the user is told that the time is up.
#[derive(Clone, Copy, Debug, PartialEq, Eq, Structural)]
pub enum FinishNotification {
    /// Flash the visible window.
    FlashWindow,
    /// Show a notification in the given language; where it cannot be shown,
    /// show a balloon from the tray icon instead.
    Notify(Language),
    /// Nothing can be shown.
    Nothing,
}

/// How the end of the countdown is announced: a visible window flashes; a
/// hidden one shows a notification in its language, where it has its state.
pub fn finish_notification(window_visible: bool, window_language: Option<Language>) -> (notification: FinishNotification)
    ensures
        notification == (if window_visible {
            FinishNotification::FlashWindow
        } else {
            match window_language {
                Some(l) => FinishNotification::Notify(l),
                None => FinishNotification::Nothing,
            }
        }),
{
    if window_visible {
        return FinishNotification::FlashWindow;
    }
    match window_language {
        Some(language) => FinishNotification::Notify(language),
        None => FinishNotification::Nothing,
    }
}

/// The second step of a `Notify`: a balloon from the tray icon is shown
/// exactly when the notification could not be shown.
pub fn balloon_after_toast(toast_shown: bool) -> (show_balloon: bool)
    ensures
        show_balloon == !toast_shown,
{
    !toast_shown
}

/// A running countdown with `r` seconds left is still running, with `r - k`
/// seconds left, after any `k < r` ticks.
pub proof fn lemma_countdown_runs_until_time_is_up(v: TimerView, k: nat)
    requires
        v.state == TimerState::Running,
        k < v.remaining,
    ensures
        ticks_view(v, k).state == TimerState::Running,
        ticks_view(v, k).remaining == v.remaining - k,
        ticks_view(v, k).initial == v.initial,
    decreases k,
{
    if k > 0 {
        lemma_countdown_runs_until_time_is_up(tick_view(v), (k - 1) as nat);
    }
}

/// A running countdown with `r > 0` seconds left is finished, with no second
/// left, after exactly `r` ticks.
pub proof fn lemma_countdown_finishes_after_remaining_ticks(v: TimerView)
    requires
        v.state == TimerState::Running,
        v.remaining > 0,
    ensures
        ticks_view(v, v.remaining as nat).state == TimerState::Finished,
        ticks_view(v, v.remaining as nat).remaining == 0,
        ticks_view(v, v.remaining as nat).initial == v.initial,
{
    let r = v.remaining as nat;
    lemma_countdown_runs_until_time_is_up(v, (r - 1) as nat);
    lemma_ticks_split(v, (r - 1) as nat, 1);
    let w = ticks_view(v, (r - 1) as nat);
    assert(ticks_view(w, 1) == ticks_view(tick_view(w), 0));
    assert((r - 1) as nat + 1 == r);
}

/// Ticking `a` times and then `b` times is ticking `a + b` times.
pub proof fn lemma_ticks_split(v: TimerView, a: nat, b: nat)
    ensures
        ticks_view(v, a + b) == ticks_view(ticks_view(v, a), b),
    decreases a,
{
    if a > 0 {
        lemma_ticks_split(tick_view(v), (a - 1) as nat, b);
        assert(ticks_view(v, a + b) == ticks_view(tick_view(v), ((a + b) - 1) as nat));
    }
}

/// A finished countdown stays finished however many ticks come.
pub proof fn lemma_finished_countdown_ignores_ticks(v: TimerView, n: nat)
    requires
        v.state != TimerState::Running,
    ensures
        ticks_view(v, n) == v,
    decreases n,
{
    if n > 0 {
        lemma_finished_countdown_ignores_ticks(tick_view(v), (n - 1) as nat);
    }
}

/// In every state exactly one of Play and Pause can be pressed.
pub proof fn lemma_play_or_pause_exclusively(v: TimerView)
    ensures
        button_states_of(v).play != button_states_of(v).pause,
{
}

/// Pausing and then playing a countdown that has seconds left resumes it
/// where it stood.
pub proof fn lemma_pause_then_play_resumes(v: TimerView)
    requires
        v.remaining > 0,
    ensures
        press_view(press_view(v, ControlButton::Pause), ControlButton::Play) == (TimerView {
            state: TimerState::Running,
            remaining: v.remaining,
            initial: v.initial,
        }),
{
}

/// After Reset the countdown is back at its starting length, not started:
/// Play can be pressed, Pause and Reset cannot.
pub proof fn lemma_reset_restores_start(v: TimerView)
    ensures
        press_view(v, ControlButton::Reset).remaining == v.initial,
        press_view(v, ControlButton::Reset).state == TimerState::NotStarted,
        button_states_of(press_view(v, ControlButton::Reset)) == (ButtonStates {
            play: true,
            pause: false,
            reset: false,
        }),
{
}

/// Pressing Play on a countdown with no second left starts it again from its
/// starting length.
pub proof fn lemma_play_after_finish_restarts(v: TimerView)
    requires
        v.remaining == 0,
    ensures
        press_view(v, ControlButton::Play).state == TimerState::Running,
        press_view(v, ControlButton::Play).remaining == v.initial,
{
}

/// Every tick and every button press keeps the countdown at or below its
/// starting length.
pub proof fn lemma_operations_keep_countdown_within_start(v: TimerView, button: ControlButton)
    requires
        timer_inv(v),
    ensures
        timer_inv(tick_view(v)),
        timer_inv(press_view(v, button)),
{
}

/// One tick of a running countdown with `r > 0` seconds left takes it to
/// `r - 1`, finished exactly when `r - 1` is 0, and redraws both the old
/// value and the new one, the new one last. The buttons show Play only once
/// finished, Pause only while still running, and Reset whenever the new value
/// is away from the start. When the last second runs out the timer is first
/// stopped and the user told, before anything else.
pub proof fn lemma_tick_redraws_old_and_new(v: TimerView)
    requires
        v.state == TimerState::Running,
        v.remaining > 0,
    ensures
        tick_view(v).remaining == v.remaining - 1,
        tick_view(v).initial == v.initial,
        (tick_view(v).state == TimerState::Finished) == (v.remaining == 1),
        (tick_view(v).state == TimerState::Running) == (v.remaining > 1),
        tick_steps(v).contains(TimerStep::Redraw(v.remaining)),
        tick_steps(v).contains(TimerStep::Redraw((v.remaining - 1) as u32)),
        tick_steps(v).last() == TimerStep::Redraw((v.remaining - 1) as u32),
        v.remaining > 1 ==> tick_steps(v) == seq![
            TimerStep::UpdateButtons(
                ButtonStates { play: false, pause: true, reset: v.remaining - 1 != v.initial },
            ),
            TimerStep::Redraw(v.remaining),
            TimerStep::Redraw((v.remaining - 1) as u32),
        ],
        v.remaining == 1 ==> tick_steps(v) == seq![
            TimerStep::StopTimer,
            TimerStep::NotifyFinished,
            TimerStep::UpdateButtons(ButtonStates { play: true, pause: false, reset: v.initial != 0 }),
            TimerStep::Redraw(1),
            TimerStep::Redraw(0),
        ],
{
    let steps = tick_steps(v);
    if v.remaining > 1 {
        assert(steps =~= seq![
            TimerStep::UpdateButtons(
                ButtonStates { play: false, pause: true, reset: v.remaining - 1 != v.initial },
            ),
            TimerStep::Redraw(v.remaining),
            TimerStep::Redraw((v.remaining - 1) as u32),
        ]);
        assert(steps[1] == TimerStep::Redraw(v.remaining));
        assert(steps[2] == TimerStep::Redraw((v.remaining - 1) as u32));
    } else {
        assert(steps =~= seq![
            TimerStep::StopTimer,
            TimerStep::NotifyFinished,
            TimerStep::UpdateButtons(ButtonStates { play: true, pause: false, reset: v.initial != 0 }),
            TimerStep::Redraw(1),
            TimerStep::Redraw(0),
        ]);
        assert(steps[3] == TimerStep::Redraw(v.remaining));
        assert(steps[4] == TimerStep::Redraw((v.remaining - 1) as u32));
    }
}

/// A tick of a countdown that does not run asks for nothing; a running one
/// that has no second left finishes, stops the timer, tells the user, and
/// redraws the zero.
pub proof fn lemma_tick_outside_running(v: TimerView)
    ensures
        v.state != TimerState::Running ==> tick_steps(v) == Seq::<TimerStep>::empty()
            && tick_view(v) == v,
        v.state == TimerState::Running && v.remaining == 0 ==> tick_steps(v) == seq![
            TimerStep::StopTimer,
            TimerStep::NotifyFinished,
            TimerStep::UpdateButtons(ButtonStates { play: true, pause: false, reset: v.initial != 0 }),
            TimerStep::Redraw(0),
        ],
{
    if v.state == TimerState::Running && v.remaining == 0 {
        assert(tick_steps(v) =~= seq![
            TimerStep::StopTimer,
            TimerStep::NotifyFinished,
            TimerStep::UpdateButtons(ButtonStates { play: true, pause: false, reset: v.initial != 0 }),
            TimerStep::Redraw(0),
        ]);
    }
}

/// Every press of Play starts the system timer and never stops it, whatever
/// state the countdown was in; Pause and Reset always stop it and never start
/// it. Every press ends by updating the buttons: after Play only Pause is
/// shown, after Pause or Reset Play is shown. What is redrawn: after Play, the
/// zero and the starting length when it starts over; after Reset, the old
/// value and the starting length; after Pause, nothing.
pub proof fn lemma_press_steps(v: TimerView)
    ensures
        press_steps(v, ControlButton::Play).contains(TimerStep::StartTimer),
        !press_steps(v, ControlButton::Play).contains(TimerStep::StopTimer),
        press_steps(v, ControlButton::Pause).contains(TimerStep::StopTimer),
        !press_steps(v, ControlButton::Pause).contains(TimerStep::StartTimer),
        press_steps(v, ControlButton::Reset).contains(TimerStep::StopTimer),
        !press_steps(v, ControlButton::Reset).contains(TimerStep::StartTimer),
        press_steps(v, ControlButton::Play) == (if v.remaining == 0 {
            seq![
                TimerStep::Redraw(0),
                TimerStep::Redraw(v.initial),
                TimerStep::StartTimer,
                TimerStep::UpdateButtons(ButtonStates { play: false, pause: true, reset: false }),
            ]
        } else {
            seq![
                TimerStep::StartTimer,
                TimerStep::UpdateButtons(
                    ButtonStates { play: false, pause: true, reset: v.remaining != v.initial },
                ),
            ]
        }),
        press_steps(v, ControlButton::Pause) == seq![
            TimerStep::StopTimer,
            TimerStep::UpdateButtons(
                ButtonStates { play: true, pause: false, reset: v.remaining != v.initial },
            ),
        ],
        press_steps(v, ControlButton::Reset) == seq![
            TimerStep::StopTimer,
            TimerStep::Redraw(v.remaining),
            TimerStep::Redraw(v.initial),
            TimerStep::UpdateButtons(ButtonStates { play: true, pause: false, reset: false }),
        ],
{
    let play = press_steps(v, ControlButton::Play);
    if v.remaining == 0 {
        assert(play =~= seq![
            TimerStep::Redraw(0),
            TimerStep::Redraw(v.initial),
            TimerStep::StartTimer,
            TimerStep::UpdateButtons(ButtonStates { play: false, pause: true, reset: false }),
        ]);
        assert(play[2] == TimerStep::StartTimer);
    } else {
        assert(play =~= seq![
            TimerStep::StartTimer,
            TimerStep::UpdateButtons(
                ButtonStates { play: false, pause: true, reset: v.remaining != v.initial },
            ),
        ]);
        assert(play[0] == TimerStep::StartTimer);
    }
    let pause = press_steps(v, ControlButton::Pause);
    assert(pause[0] == TimerStep::StopTimer);
    let reset = press_steps(v, ControlButton::Reset);
    assert(reset[0] == TimerStep::StopTimer);
}

} // verus!
