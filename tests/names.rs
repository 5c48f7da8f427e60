use luna_shell::text::str_equals;
use luna_shell::tray::{menu_items, tray_tooltip, MenuId};
use luna_shell::window::ManagedWindow;

#[test]
fn window_labels() {
    assert_eq!(ManagedWindow::from_label("main"), Some(ManagedWindow::Main));
    assert_eq!(ManagedWindow::from_label("settings"), Some(ManagedWindow::Settings));
    assert_eq!(ManagedWindow::from_label("mai"), None);
    assert_eq!(ManagedWindow::from_label(""), None);
    assert_eq!(ManagedWindow::Main.label(), "main");
    assert_eq!(ManagedWindow::Settings.label(), "settings");
}

#[test]
fn menu_identifiers_round_trip() {
    for m in [MenuId::Toggle, MenuId::Settings, MenuId::Quit] {
        assert_eq!(MenuId::from_id(m.id()), Some(m));
    }
    assert_eq!(MenuId::Toggle.id(), "toggle");
    assert_eq!(MenuId::Settings.id(), "settings");
    assert_eq!(MenuId::Quit.id(), "quit");
    assert_eq!(MenuId::from_id("QUIT"), None);
}

#[test]
fn menu_titles_and_tooltip() {
    assert_eq!(MenuId::Toggle.title(), "Show/Hide Luna");
    assert_eq!(MenuId::Settings.title(), "Settings");
    assert_eq!(MenuId::Quit.title(), "Quit");
    assert_eq!(tray_tooltip(), "ORBIT Luna - AI Desktop Companion");
    assert_eq!(menu_items(false), vec![MenuId::Toggle, MenuId::Quit]);
}

#[test]
fn string_equality() {
    assert!(str_equals("", ""));
    assert!(str_equals("héllo", "héllo"));
    assert!(!str_equals("héllo", "hello"));
    assert!(!str_equals("ab", "abc"));
}
