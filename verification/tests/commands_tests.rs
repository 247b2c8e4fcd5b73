use clip_tray_core::commands::ShortcutCommandError;
use clip_tray_core::commands::change_shortcut;
use clip_tray_core::commands::get_current_shortcut;
use clip_tray_core::hotkey::HotkeyManager;
use clip_tray_core::hotkey::RebindError;
use clip_tray_core::hotkey::ScriptedHotkeyPort;
use clip_tray_core::keycodes::TranslateError;
use clip_tray_core::keycodes::default_shortcut;

fn names(list: &[&str]) -> Vec<String> {
    list.iter().map(|s| s.to_string()).collect()
}

#[test]
fn failed_change_keeps_the_previous_shortcut() {
    let mut port = ScriptedHotkeyPort::new();
    let mut mgr = HotkeyManager::initialize(&mut port, default_shortcut()).unwrap();

    let ok = change_shortcut(&mut mgr, &mut port, &names(&["ctrl", "shift"]), "Space");
    assert_eq!(ok, Ok(()));

    let bad = change_shortcut(&mut mgr, &mut port, &names(&["xyz"]), "Space");
    assert_eq!(
        bad,
        Err(ShortcutCommandError::Unsupported(TranslateError::Modifier("xyz".to_string())))
    );

    let (mods, key) = get_current_shortcut(&mgr);
    assert_eq!(mods, "ctrl+shift");
    assert_eq!(key, "Space");
}

#[test]
fn change_to_unmodified_key_reports_none() {
    let mut port = ScriptedHotkeyPort::new();
    let mut mgr = HotkeyManager::initialize(&mut port, default_shortcut()).unwrap();
    assert_eq!(change_shortcut(&mut mgr, &mut port, &names(&[]), "KeyT"), Ok(()));
    let (mods, key) = get_current_shortcut(&mgr);
    assert_eq!(mods, "none");
    assert_eq!(key, "KeyT");
}

#[test]
fn unsupported_key_is_reported_and_nothing_changes() {
    let mut port = ScriptedHotkeyPort::new();
    let mut mgr = HotkeyManager::initialize(&mut port, default_shortcut()).unwrap();
    let r = change_shortcut(&mut mgr, &mut port, &names(&["ctrl"]), "NotAKey");
    assert_eq!(
        r,
        Err(ShortcutCommandError::Unsupported(TranslateError::Key("NotAKey".to_string())))
    );
    assert_eq!(mgr.current_binding(), default_shortcut());
    assert_eq!(port.registered_shortcut(), Some(default_shortcut()));
}

#[test]
fn service_refusals_surface_as_registration_errors() {
    let mut port = ScriptedHotkeyPort::new();
    let mut mgr = HotkeyManager::initialize(&mut port, default_shortcut()).unwrap();
    port.refuse_unregister(true);
    let r = change_shortcut(&mut mgr, &mut port, &names(&["ctrl"]), "KeyT");
    assert_eq!(
        r,
        Err(ShortcutCommandError::Registration(RebindError::UnregisterFailed))
    );
    let (mods, key) = get_current_shortcut(&mgr);
    assert_eq!(mods, "ctrl+shift");
    assert_eq!(key, "Space");
}

#[test]
fn error_messages_name_the_token_or_stage() {
    let m = ShortcutCommandError::Unsupported(TranslateError::Modifier("xyz".to_string()));
    assert_eq!(m.message(), "Unsupported modifier: xyz");
    let k = ShortcutCommandError::Unsupported(TranslateError::Key("NotAKey".to_string()));
    assert_eq!(k.message(), "Unsupported key: NotAKey");
    let u = ShortcutCommandError::Registration(RebindError::UnregisterFailed);
    assert_eq!(u.message(), "Failed to unregister old shortcut");
    let r = ShortcutCommandError::Registration(RebindError::RegisterFailed { restored: true });
    assert_eq!(r.message(), "Failed to register new shortcut");
    let d = ShortcutCommandError::Registration(RebindError::RegisterFailed { restored: false });
    assert_eq!(
        d.message(),
        "Failed to register new shortcut; the previous shortcut could not be restored"
    );
}
