use selection_monitor::system_tray::{
    create_system_tray, handle_menu_event, handle_tray_click_event, tooltip, MenuAction, MenuEntry,
    MenuItemKind, MouseButton, MouseButtonState, TrayAction, TrayEvent,
};

#[test]
fn menu_is_laid_out_in_groups() {
    assert_eq!(
        create_system_tray(),
        vec![
            MenuEntry::Item(MenuItemKind::Show),
            MenuEntry::Separator,
            MenuEntry::Item(MenuItemKind::StartDetection),
            MenuEntry::Item(MenuItemKind::StopDetection),
            MenuEntry::Separator,
            MenuEntry::Item(MenuItemKind::Permissions),
            MenuEntry::Separator,
            MenuEntry::Item(MenuItemKind::Quit),
        ]
    );
}

#[test]
fn items_have_their_identifiers_and_labels() {
    assert_eq!(MenuItemKind::Show.id(), "show");
    assert_eq!(MenuItemKind::Show.label(), "Show Window");
    assert_eq!(MenuItemKind::StartDetection.id(), "start_detection");
    assert_eq!(MenuItemKind::StartDetection.label(), "Start Detection");
    assert_eq!(MenuItemKind::StopDetection.id(), "stop_detection");
    assert_eq!(MenuItemKind::StopDetection.label(), "Stop Detection");
    assert_eq!(MenuItemKind::Permissions.id(), "permissions");
    assert_eq!(MenuItemKind::Permissions.label(), "Check Permissions");
    assert_eq!(MenuItemKind::Quit.id(), "quit");
    assert_eq!(MenuItemKind::Quit.label(), "Quit");
}

#[test]
fn tooltip_names_the_monitor() {
    assert_eq!(tooltip(), "ACMI Desktop - Text Selection Monitor");
}

#[test]
fn menu_events_reach_their_actions() {
    assert_eq!(handle_menu_event("quit"), MenuAction::Quit);
    assert_eq!(handle_menu_event("show"), MenuAction::ShowWindow);
    assert_eq!(handle_menu_event("start_detection"), MenuAction::StartDetection);
    assert_eq!(handle_menu_event("stop_detection"), MenuAction::StopDetection);
    assert_eq!(handle_menu_event("permissions"), MenuAction::CheckPermissions);
}

#[test]
fn every_item_of_the_menu_is_handled() {
    for entry in create_system_tray() {
        if let MenuEntry::Item(item) = entry {
            assert_ne!(handle_menu_event(item.id()), MenuAction::Ignore);
        }
    }
}

#[test]
fn unknown_menu_events_are_ignored() {
    assert_eq!(handle_menu_event(""), MenuAction::Ignore);
    assert_eq!(handle_menu_event("Quit"), MenuAction::Ignore);
    assert_eq!(handle_menu_event("quit "), MenuAction::Ignore);
    assert_eq!(handle_menu_event("start"), MenuAction::Ignore);
    assert_eq!(handle_menu_event("hide"), MenuAction::Ignore);
}

#[test]
fn left_release_shows_the_window() {
    let event = TrayEvent::Click { button: MouseButton::Left, button_state: MouseButtonState::Up };
    assert_eq!(handle_tray_click_event(event), TrayAction::ShowWindow);
}

#[test]
fn other_tray_events_are_ignored() {
    let up = MouseButtonState::Up;
    let down = MouseButtonState::Down;
    let press = TrayEvent::Click { button: MouseButton::Left, button_state: down };
    assert_eq!(handle_tray_click_event(press), TrayAction::Ignore);
    let right = TrayEvent::Click { button: MouseButton::Right, button_state: up };
    assert_eq!(handle_tray_click_event(right), TrayAction::Ignore);
    let middle = TrayEvent::Click { button: MouseButton::Middle, button_state: up };
    assert_eq!(handle_tray_click_event(middle), TrayAction::Ignore);
    assert_eq!(handle_tray_click_event(TrayEvent::Other), TrayAction::Ignore);
}
