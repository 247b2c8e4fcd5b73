use clip_tray_core::policy::PolicyError;
use clip_tray_core::policy::elevation_from;
use clip_tray_core::policy::policy_update_decision;
use clip_tray_core::policy::policy_value_for;
use clip_tray_core::policy::shortcut_disabled_from;
use clip_tray_core::tray::TrayAction;
use clip_tray_core::tray::TrayButtonState;
use clip_tray_core::tray::TrayEvent;
use clip_tray_core::tray::TrayMouseButton;
use clip_tray_core::tray::dispatch_tray_event;
use clip_tray_core::tray::quit_menu_id;
use clip_tray_core::tray::quit_menu_label;

#[test]
fn quit_menu_terminates_with_exit_code_zero() {
    let e = TrayEvent::Menu("quit".to_string());
    assert_eq!(dispatch_tray_event(&e), TrayAction::Quit { exit_code: 0 });
}

#[test]
fn unknown_menu_ids_are_ignored() {
    let e = TrayEvent::Menu("settings".to_string());
    assert_eq!(dispatch_tray_event(&e), TrayAction::Ignore);
}

#[test]
fn left_mouse_up_toggles_visibility() {
    let e = TrayEvent::Click(TrayMouseButton::Left, TrayButtonState::Up);
    assert_eq!(dispatch_tray_event(&e), TrayAction::ToggleVisibility);
}

#[test]
fn other_clicks_fall_through() {
    let down = TrayEvent::Click(TrayMouseButton::Left, TrayButtonState::Down);
    assert_eq!(dispatch_tray_event(&down), TrayAction::Ignore);
    let right = TrayEvent::Click(TrayMouseButton::Right, TrayButtonState::Up);
    assert_eq!(dispatch_tray_event(&right), TrayAction::Ignore);
    let middle = TrayEvent::Click(TrayMouseButton::Middle, TrayButtonState::Up);
    assert_eq!(dispatch_tray_event(&middle), TrayAction::Ignore);
}

#[test]
fn unhandled_event_kinds_are_ignored() {
    assert_eq!(dispatch_tray_event(&TrayEvent::Other), TrayAction::Ignore);
}

#[test]
fn menu_constants_match_the_tray_setup() {
    assert_eq!(quit_menu_id(), "quit");
    assert_eq!(quit_menu_label(), "Quit");
}

#[test]
fn elevation_needs_success_and_nonzero_flag() {
    assert!(elevation_from(true, 1));
    assert!(elevation_from(true, 7));
    assert!(!elevation_from(true, 0));
    assert!(!elevation_from(false, 1));
    assert!(!elevation_from(false, 0));
}

#[test]
fn policy_value_disables_with_zero() {
    assert_eq!(policy_value_for(true), 0);
    assert_eq!(policy_value_for(false), 1);
}

#[test]
fn policy_update_requires_elevation() {
    assert_eq!(policy_update_decision(false, true), Err(PolicyError::NotElevated));
    assert_eq!(policy_update_decision(false, false), Err(PolicyError::NotElevated));
    assert_eq!(policy_update_decision(true, true), Ok(0));
    assert_eq!(policy_update_decision(true, false), Ok(1));
}

#[test]
fn shortcut_counts_disabled_only_at_zero() {
    assert!(shortcut_disabled_from(Some(0)));
    assert!(!shortcut_disabled_from(Some(1)));
    assert!(!shortcut_disabled_from(Some(2)));
    assert!(!shortcut_disabled_from(None));
}
