use snapcode::greeting::greet;
use snapcode::tray::{tray_click_action, PointerButton, TrayAction};

#[test]
fn greets_by_name() {
    assert_eq!(greet("Ada"), "Hello, Ada! You've been greeted from Rust!");
    assert_eq!(greet(""), "Hello, ! You've been greeted from Rust!");
}

#[test]
fn left_click_toggles_window() {
    assert_eq!(tray_click_action(PointerButton::Left, Some(true)), TrayAction::Hide);
    assert_eq!(tray_click_action(PointerButton::Left, Some(false)), TrayAction::ShowAndFocus);
    assert_eq!(tray_click_action(PointerButton::Left, None), TrayAction::Ignore);
}

#[test]
fn other_clicks_are_ignored() {
    for visible in [Some(true), Some(false), None] {
        assert_eq!(tray_click_action(PointerButton::Right, visible), TrayAction::Ignore);
        assert_eq!(tray_click_action(PointerButton::Middle, visible), TrayAction::Ignore);
    }
}
