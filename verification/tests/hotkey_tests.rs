use clip_tray_core::hotkey::HotkeyManager;
use clip_tray_core::hotkey::HotkeyPressState;
use clip_tray_core::hotkey::RebindError;
use clip_tray_core::hotkey::ScriptedHotkeyPort;
use clip_tray_core::hotkey::should_toggle;
use clip_tray_core::keycodes::KeyCode;
use clip_tray_core::keycodes::Modifiers;
use clip_tray_core::keycodes::Shortcut;
use clip_tray_core::keycodes::default_shortcut;

fn binding(ctrl: bool, key: KeyCode) -> Shortcut {
    Shortcut { mods: Modifiers { ctrl, shift: false, alt: false, meta: false }, key }
}

#[test]
fn initialize_registers_the_default_once() {
    let mut port = ScriptedHotkeyPort::new();
    let mgr = HotkeyManager::initialize(&mut port, default_shortcut()).unwrap();
    assert_eq!(mgr.current_binding(), default_shortcut());
    assert_eq!(port.registered_shortcut(), Some(default_shortcut()));
}

#[test]
fn initialize_failure_is_propagated() {
    let mut port = ScriptedHotkeyPort::new();
    port.refuse_register(true);
    let r = HotkeyManager::initialize(&mut port, default_shortcut());
    assert!(r.is_err());
    assert_eq!(port.registered_shortcut(), None);
}

#[test]
fn rebind_success_swaps_binding_and_registration() {
    let mut port = ScriptedHotkeyPort::new();
    let mut mgr = HotkeyManager::initialize(&mut port, default_shortcut()).unwrap();
    let new = binding(true, KeyCode::KeyT);
    assert_eq!(mgr.rebind(&mut port, new), Ok(()));
    assert_eq!(mgr.current_binding(), new);
    assert_eq!(port.registered_shortcut(), Some(new));
}

#[test]
fn rebind_unregister_failure_changes_nothing() {
    let mut port = ScriptedHotkeyPort::new();
    let mut mgr = HotkeyManager::initialize(&mut port, default_shortcut()).unwrap();
    port.refuse_unregister(true);
    let r = mgr.rebind(&mut port, binding(true, KeyCode::KeyT));
    assert_eq!(r, Err(RebindError::UnregisterFailed));
    assert_eq!(mgr.current_binding(), default_shortcut());
    assert_eq!(port.registered_shortcut(), Some(default_shortcut()));
}

#[test]
fn rebind_register_failure_restores_the_old_registration() {
    let mut port = ScriptedHotkeyPort::new();
    let mut mgr = HotkeyManager::initialize(&mut port, default_shortcut()).unwrap();
    port.refuse_register_once();
    let r = mgr.rebind(&mut port, binding(true, KeyCode::KeyT));
    assert_eq!(r, Err(RebindError::RegisterFailed { restored: true }));
    assert_eq!(mgr.current_binding(), default_shortcut());
    assert_eq!(port.registered_shortcut(), Some(default_shortcut()));
}

#[test]
fn rebind_register_and_rollback_failure_is_reported_degraded() {
    let mut port = ScriptedHotkeyPort::new();
    let mut mgr = HotkeyManager::initialize(&mut port, default_shortcut()).unwrap();
    port.refuse_register(true);
    let r = mgr.rebind(&mut port, binding(true, KeyCode::KeyT));
    assert_eq!(r, Err(RebindError::RegisterFailed { restored: false }));
    assert_eq!(mgr.current_binding(), default_shortcut());
    assert_eq!(port.registered_shortcut(), None);
}

#[test]
fn rebind_keeps_binding_across_any_failure() {
    let mut port = ScriptedHotkeyPort::new();
    let mut mgr = HotkeyManager::initialize(&mut port, default_shortcut()).unwrap();
    port.refuse_unregister(true);
    let _ = mgr.rebind(&mut port, binding(true, KeyCode::KeyA));
    assert_eq!(mgr.current_binding(), default_shortcut());
    port.refuse_unregister(false);
    port.refuse_register(true);
    let _ = mgr.rebind(&mut port, binding(true, KeyCode::KeyA));
    assert_eq!(mgr.current_binding(), default_shortcut());
}

#[test]
fn only_a_press_toggles() {
    assert!(should_toggle(HotkeyPressState::Pressed));
    assert!(!should_toggle(HotkeyPressState::Released));
}
