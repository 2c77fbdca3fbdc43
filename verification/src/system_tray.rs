//! The tray icon: the layout of its menu and what its events ask for.

use vstd::prelude::*;
use crate::text::same_text;

verus! {

/// The items of the tray menu.
#[derive(Debug, Clone, Copy, PartialEq, Eq, Structural)]
pub enum MenuItemKind {
    Show,
    StartDetection,
    StopDetection,
    Permissions,
    Quit,
}

/// What the host does for an event of the tray.
#[derive(Debug, Clone, Copy, PartialEq, Eq, Structural)]
pub enum MenuAction {
    /// End the process.
    Quit,
    /// Show the main window and give it the focus.
    ShowWindow,
    /// Start the polling detector.
    StartDetection,
    /// Stop the polling detector.
    StopDetection,
    /// Report the accessibility permission, and ask for it if it is
    /// missing.
    CheckPermissions,
    /// Nothing.
    Ignore,
}

impl MenuItemKind {
    /// The identifier under which the item's events arrive.
    pub open spec fn id_of(self) -> Seq<char> {
        match self {
            MenuItemKind::Show => "show"@,
            MenuItemKind::StartDetection => "start_detection"@,
            MenuItemKind::StopDetection => "stop_detection"@,
            MenuItemKind::Permissions => "permissions"@,
            MenuItemKind::Quit => "quit"@,
        }
    }

    /// The words the item shows.
    pub open spec fn label_of(self) -> Seq<char> {
        match self {
            MenuItemKind::Show => "Show Window"@,
            MenuItemKind::StartDetection => "Start Detection"@,
            MenuItemKind::StopDetection => "Stop Detection"@,
            MenuItemKind::Permissions => "Check Permissions"@,
            MenuItemKind::Quit => "Quit"@,
        }
    }

    /// What a click on the item asks for.
    pub open spec fn action_of(self) -> MenuAction {
        match self {
            MenuItemKind::Show => MenuAction::ShowWindow,
            MenuItemKind::StartDetection => MenuAction::StartDetection,
            MenuItemKind::StopDetection => MenuAction::StopDetection,
            MenuItemKind::Permissions => MenuAction::CheckPermissions,
            MenuItemKind::Quit => MenuAction::Quit,
        }
    }

    /// The identifier under which the item's events arrive, as a string
    /// slice.
    pub fn id(self) -> (id: &'static str)
        ensures
            id@ == self.id_of(),
    {
        match self {
            MenuItemKind::Show => "show",
            MenuItemKind::StartDetection => "start_detection",
            MenuItemKind::StopDetection => "stop_detection",
            MenuItemKind::Permissions => "permissions",
            MenuItemKind::Quit => "quit",
        }
    }

    /// The words the item shows, as a string slice.
    pub fn label(self) -> (label: &'static str)
        ensures
            label@ == self.label_of(),
    {
        match self {
            MenuItemKind::Show => "Show Window",
            MenuItemKind::StartDetection => "Start Detection",
            MenuItemKind::StopDetection => "Stop Detection",
            MenuItemKind::Permissions => "Check Permissions",
            MenuItemKind::Quit => "Quit",
        }
    }
}

/// One line of the tray menu.
#[derive(Debug, Clone, Copy, PartialEq, Eq, Structural)]
pub enum MenuEntry {
    /// An item that can be clicked.
    Item(MenuItemKind),
    /// A line between groups of items.
    Separator,
}

/// The tray menu, from top to bottom.
pub open spec fn tray_menu() -> Seq<MenuEntry> {
    seq![
        MenuEntry::Item(MenuItemKind::Show),
        MenuEntry::Separator,
        MenuEntry::Item(MenuItemKind::StartDetection),
        MenuEntry::Item(MenuItemKind::StopDetection),
        MenuEntry::Separator,
        MenuEntry::Item(MenuItemKind::Permissions),
        MenuEntry::Separator,
        MenuEntry::Item(MenuItemKind::Quit),
    ]
}

/// The words that the tray icon shows under the pointer.
pub fn tooltip() -> (words: &'static str)
    ensures
        words@ == "ACMI Desktop - Text Selection Monitor"@,
{
    "ACMI Desktop - Text Selection Monitor"
}

/// Lays out the tray menu: the window, the two detection commands, the
/// permission check and the exit, in groups.
pub fn create_system_tray() -> (menu: Vec<MenuEntry>)
    ensures
        menu@ == tray_menu(),
{
    let mut menu: Vec<MenuEntry> = Vec::new();
    menu.push(MenuEntry::Item(MenuItemKind::Show));
    menu.push(MenuEntry::Separator);
    menu.push(MenuEntry::Item(MenuItemKind::StartDetection));
    menu.push(MenuEntry::Item(MenuItemKind::StopDetection));
    menu.push(MenuEntry::Separator);
    menu.push(MenuEntry::Item(MenuItemKind::Permissions));
    menu.push(MenuEntry::Separator);
    menu.push(MenuEntry::Item(MenuItemKind::Quit));
    assert(menu@ =~= tray_menu());
    menu
}

/// What an event with the identifier `id` asks for: the action of the
/// item with that identifier, and nothing where no item has it.
pub open spec fn action_for(id: Seq<char>) -> MenuAction {
    if id == MenuItemKind::Quit.id_of() {
        MenuAction::Quit
    } else if id == MenuItemKind::Show.id_of() {
        MenuAction::ShowWindow
    } else if id == MenuItemKind::StartDetection.id_of() {
        MenuAction::StartDetection
    } else if id == MenuItemKind::StopDetection.id_of() {
        MenuAction::StopDetection
    } else if id == MenuItemKind::Permissions.id_of() {
        MenuAction::CheckPermissions
    } else {
        MenuAction::Ignore
    }
}

/// Decides what a menu event asks for, by the identifier of its item.
pub fn handle_menu_event(id: &str) -> (action: MenuAction)
    ensures
        action == action_for(id@),
{
    if same_text(id, MenuItemKind::Quit.id()) {
        MenuAction::Quit
    } else if same_text(id, MenuItemKind::Show.id()) {
        MenuAction::ShowWindow
    } else if same_text(id, MenuItemKind::StartDetection.id()) {
        MenuAction::StartDetection
    } else if same_text(id, MenuItemKind::StopDetection.id()) {
        MenuAction::StopDetection
    } else if same_text(id, MenuItemKind::Permissions.id()) {
        MenuAction::CheckPermissions
    } else {
        MenuAction::Ignore
    }
}

/// The identifiers of the items differ, so each item's events reach its
/// own action.
pub proof fn lemma_items_reach_their_actions(item: MenuItemKind)
    ensures
        action_for(item.id_of()) == item.action_of(),
        action_for(item.id_of()) != MenuAction::Ignore,
{
    reveal_strlit("show");
    reveal_strlit("start_detection");
    reveal_strlit("stop_detection");
    reveal_strlit("permissions");
    reveal_strlit("quit");
    assert("show"@.len() == 4);
    assert("quit"@.len() == 4);
    assert("show"@[0] == 's');
    assert("quit"@[0] == 'q');
    assert("start_detection"@.len() == 15);
    assert("stop_detection"@.len() == 14);
    assert("permissions"@.len() == 11);
}

/// The buttons of the pointer.
#[derive(Debug, Clone, Copy, PartialEq, Eq, Structural)]
pub enum MouseButton {
    Left,
    Right,
    Middle,
}

/// Whether a button went down or came up.
#[derive(Debug, Clone, Copy, PartialEq, Eq, Structural)]
pub enum MouseButtonState {
    Up,
    Down,
}

/// What happened on the tray icon.
#[derive(Debug, Clone, Copy, PartialEq, Eq, Structural)]
pub enum TrayEvent {
    /// A button changed its state on the icon.
    Click { button: MouseButton, button_state: MouseButtonState },
    /// Anything else: the pointer came, moved or left, or a double click.
    Other,
}

/// What the host does for an event on the tray icon.
#[derive(Debug, Clone, Copy, PartialEq, Eq, Structural)]
pub enum TrayAction {
    /// Show the main window and give it the focus.
    ShowWindow,
    /// Nothing.
    Ignore,
}

/// Decides what an event on the tray icon asks for: the release of the
/// left button shows the window, and nothing else does anything.
pub fn handle_tray_click_event(event: TrayEvent) -> (action: TrayAction)
    ensures
        action == TrayAction::ShowWindow <==> event == (TrayEvent::Click {
            button: MouseButton::Left,
            button_state: MouseButtonState::Up,
        }),
        action == TrayAction::ShowWindow || action == TrayAction::Ignore,
{
    match event {
        TrayEvent::Click { button: MouseButton::Left, button_state: MouseButtonState::Up } => {
            TrayAction::ShowWindow
        },
        _ => TrayAction::Ignore,
    }
}

} // verus!
