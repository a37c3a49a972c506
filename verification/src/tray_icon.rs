use vstd::prelude::*;

verus! {

/// The first message number Windows leaves to applications (`WM_APP`).
pub const WM_APP: u32 = 0x8000;
/// The message the tray icon sends to the main window.
pub const WM_TRAYICON: u32 = WM_APP + 1;
/// The identifier of the tray icon.
pub const TRAY_ICON_ID: u32 = 1;
/// The menu item that shows the main window.
pub const TRAY_MENU_SHOW_ID: usize = 41001;
/// The menu item that opens the configuration directory.
pub const TRAY_MENU_OPEN_CONFIG_ID: usize = 41002;
/// The menu item that shows the About window.
pub const TRAY_MENU_ABOUT_ID: usize = 41003;
/// The menu item that ends the program.
pub const TRAY_MENU_EXIT_ID: usize = 41004;
/// The notification of a double click with the left button (`WM_LBUTTONDBLCLK`).
pub const WM_LBUTTONDBLCLK: u32 = 0x0203;
/// The notification of a release of the right button (`WM_RBUTTONUP`).
pub const WM_RBUTTONUP: u32 = 0x0205;
/// The notification that asks for a context menu (`WM_CONTEXTMENU`).
pub const WM_CONTEXTMENU: u32 = 0x007B;

/// The texts of the tray icon: its tooltip and the items of its menu.
pub struct TrayIcon {
    tooltip: String,
    show_menu_text: String,
    open_config_text: String,
    about_text: String,
    exit_menu_text: String,
}

/// The model of a tray icon: its tooltip and its four menu texts, in menu order.
pub struct TrayIconView {
    pub tooltip: Seq<char>,
    pub menu_texts: Seq<Seq<char>>,
}

impl View for TrayIcon {
    type V = TrayIconView;

    closed spec fn view(&self) -> TrayIconView {
        TrayIconView {
            tooltip: self.tooltip@,
            menu_texts: seq![
                self.show_menu_text@,
                self.open_config_text@,
                self.about_text@,
                self.exit_menu_text@,
            ],
        }
    }
}

/// An item of the tray icon's menu.
pub struct MenuItem {
    pub id: usize,
    pub text: String,
}

/// What the main window does on a notification from the tray icon.
#[derive(Clone, Copy, Debug, PartialEq, Eq, Structural)]
pub enum TrayCallbackAction {
    /// Show and restore the main window, and bring it to the front.
    ShowMainWindow,
    /// Show the tray icon's menu at the cursor.
    ShowContextMenu,
    /// The notification is not handled.
    Ignore,
}

/// A menu command that the tray icon handles itself.
#[derive(Clone, Copy, Debug, PartialEq, Eq, Structural)]
pub enum TrayIconCommand {
    /// Show and restore the main window, and bring it to the front.
    ShowMainWindow,
    /// Destroy the main window, which ends the program.
    Exit,
}

/// The low 16 bits of a value.
pub fn loword(value: u32) -> (low: u16)
    ensures
        low == value % 65536,
{
    let low: u32 = value & 0xFFFF;
    assert(low == value % 65536) by (bit_vector)
        requires low == value & 0xFFFF;
    low as u16
}

/// The menu identifier carried by the `wparam` of a `WM_COMMAND`: its low 16 bits.
pub open spec fn command_id(wparam: usize) -> int {
    wparam as int % 65536
}

/// The menu identifier carried by the `wparam` of a `WM_COMMAND`.
pub fn command_id_of(wparam: usize) -> (id: usize)
    ensures
        id == command_id(wparam),
{
    let id: usize = wparam & 0xFFFF;
    assert(id == wparam % 65536) by (bit_vector)
        requires id == wparam & 0xFFFF;
    id
}

/// The notification carried by the `lparam` of a tray message: the low 16
/// bits of its low 32 bits.
pub open spec fn notification_of(lparam: isize) -> int {
    (lparam as u32) as int % 65536
}

impl TrayIcon {
    /// A tray icon with its tooltip and the texts of its four menu items.
    pub fn create(
        tooltip: &str,
        show_menu_text: &str,
        open_config_text: &str,
        about_text: &str,
        exit_menu_text: &str,
    ) -> (icon: Self)
        ensures
            icon@.tooltip == tooltip@,
            icon@.menu_texts == seq![show_menu_text@, open_config_text@, about_text@, exit_menu_text@],
    {
        TrayIcon {
            tooltip: tooltip.to_owned(),
            show_menu_text: show_menu_text.to_owned(),
            open_config_text: open_config_text.to_owned(),
            about_text: about_text.to_owned(),
            exit_menu_text: exit_menu_text.to_owned(),
        }
    }

    /// The tooltip of the icon.
    pub fn tooltip(&self) -> (tooltip: &str)
        ensures
            tooltip@ == self@.tooltip,
    {
        self.tooltip.as_str()
    }

    /// What to do on a notification from the icon: a double click shows the
    /// main window, a right-button release or a context-menu request shows
    /// the menu, and any other notification is not handled.
    pub fn handle_callback(&self, lparam: isize) -> (action: TrayCallbackAction)
        ensures
            action == (if notification_of(lparam) == WM_LBUTTONDBLCLK {
                TrayCallbackAction::ShowMainWindow
            } else if notification_of(lparam) == WM_RBUTTONUP || notification_of(lparam)
                == WM_CONTEXTMENU {
                TrayCallbackAction::ShowContextMenu
            } else {
                TrayCallbackAction::Ignore
            }),
    {
        let low: u32 = loword(lparam as u32) as u32;
        if low == WM_LBUTTONDBLCLK {
            TrayCallbackAction::ShowMainWindow
        } else if low == WM_RBUTTONUP || low == WM_CONTEXTMENU {
            TrayCallbackAction::ShowContextMenu
        } else {
            TrayCallbackAction::Ignore
        }
    }

    /// The menu commands the icon handles itself: Show and Exit. Any other
    /// command is left to the window.
    pub fn handle_command(&self, wparam: usize) -> (command: Option<TrayIconCommand>)
        ensures
            command == (if command_id(wparam) == TRAY_MENU_SHOW_ID {
                Some(TrayIconCommand::ShowMainWindow)
            } else if command_id(wparam) == TRAY_MENU_EXIT_ID {
                Some(TrayIconCommand::Exit)
            } else {
                None::<TrayIconCommand>
            }),
    {
        let id = command_id_of(wparam);
        if id == TRAY_MENU_SHOW_ID {
            Some(TrayIconCommand::ShowMainWindow)
        } else if id == TRAY_MENU_EXIT_ID {
            Some(TrayIconCommand::Exit)
        } else {
            None
        }
    }

    /// The items of the icon's menu, in order: Show, Open configuration,
    /// About and Exit.
    pub fn context_menu_items(&self) -> (items: Vec<MenuItem>)
        ensures
            items@.len() == 4,
            items@[0].id == TRAY_MENU_SHOW_ID,
            items@[1].id == TRAY_MENU_OPEN_CONFIG_ID,
            items@[2].id == TRAY_MENU_ABOUT_ID,
            items@[3].id == TRAY_MENU_EXIT_ID,
            forall|i: int| 0 <= i < 4 ==> #[trigger] items@[i].text@ == self@.menu_texts[i],
    {
        let mut items: Vec<MenuItem> = Vec::new();
        items.push(MenuItem { id: TRAY_MENU_SHOW_ID, text: self.show_menu_text.clone() });
        items.push(MenuItem { id: TRAY_MENU_OPEN_CONFIG_ID, text: self.open_config_text.clone() });
        items.push(MenuItem { id: TRAY_MENU_ABOUT_ID, text: self.about_text.clone() });
        items.push(MenuItem { id: TRAY_MENU_EXIT_ID, text: self.exit_menu_text.clone() });
        items
    }
}

} // verus!
