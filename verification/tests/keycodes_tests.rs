use clip_tray_core::keycodes::KeyCode;
use clip_tray_core::keycodes::Modifiers;
use clip_tray_core::keycodes::Shortcut;
use clip_tray_core::keycodes::TranslateError;
use clip_tray_core::keycodes::default_shortcut;
use clip_tray_core::keycodes::format_modifiers;
use clip_tray_core::keycodes::key_name;
use clip_tray_core::keycodes::parse_key_code;
use clip_tray_core::keycodes::translate;

fn mods(ctrl: bool, shift: bool, alt: bool, meta: bool) -> Modifiers {
    Modifiers { ctrl, shift, alt, meta }
}

fn names(list: &[&str]) -> Vec<String> {
    list.iter().map(|s| s.to_string()).collect()
}

#[test]
fn translate_ctrl_shift_space() {
    let r = translate(&names(&["ctrl", "shift"]), "Space");
    assert_eq!(
        r,
        Ok(Shortcut { mods: mods(true, true, false, false), key: KeyCode::Space })
    );
}

#[test]
fn translate_without_modifiers() {
    let r = translate(&names(&[]), "KeyT");
    assert_eq!(
        r,
        Ok(Shortcut { mods: mods(false, false, false, false), key: KeyCode::KeyT })
    );
}

#[test]
fn translate_duplicates_collapse() {
    let twice = translate(&names(&["ctrl", "ctrl"]), "KeyA");
    let once = translate(&names(&["ctrl"]), "KeyA");
    assert_eq!(twice, once);
}

#[test]
fn translate_order_irrelevant() {
    let a = translate(&names(&["shift", "ctrl", "meta"]), "F5");
    let b = translate(&names(&["meta", "ctrl", "shift"]), "F5");
    assert_eq!(a, b);
    assert_eq!(
        a,
        Ok(Shortcut { mods: mods(true, true, false, true), key: KeyCode::F5 })
    );
}

#[test]
fn translate_unsupported_modifier() {
    let r = translate(&names(&["ctrl", "xyz"]), "Space");
    assert_eq!(r, Err(TranslateError::Modifier("xyz".to_string())));
}

#[test]
fn translate_first_bad_modifier_reported() {
    let r = translate(&names(&["bogus", "xyz"]), "Space");
    assert_eq!(r, Err(TranslateError::Modifier("bogus".to_string())));
}

#[test]
fn translate_unsupported_key() {
    let r = translate(&names(&["ctrl"]), "NotAKey");
    assert_eq!(r, Err(TranslateError::Key("NotAKey".to_string())));
}

#[test]
fn translate_modifier_checked_before_key() {
    let r = translate(&names(&["xyz"]), "NotAKey");
    assert_eq!(r, Err(TranslateError::Modifier("xyz".to_string())));
}

const ALL_KEY_NAMES: &[&str] = &[
    "KeyA", "KeyB", "KeyC", "KeyD", "KeyE", "KeyF", "KeyG", "KeyH", "KeyI", "KeyJ", "KeyK",
    "KeyL", "KeyM", "KeyN", "KeyO", "KeyP", "KeyQ", "KeyR", "KeyS", "KeyT", "KeyU", "KeyV",
    "KeyW", "KeyX", "KeyY", "KeyZ", "Digit0", "Digit1", "Digit2", "Digit3", "Digit4", "Digit5",
    "Digit6", "Digit7", "Digit8", "Digit9", "F1", "F2", "F3", "F4", "F5", "F6", "F7", "F8", "F9",
    "F10", "F11", "F12", "Space", "Tab", "Escape", "Enter", "Backspace", "ArrowUp", "ArrowDown",
    "ArrowLeft", "ArrowRight", "Delete", "Insert", "Home", "End", "PageUp", "PageDown",
    "CapsLock", "ScrollLock", "NumLock", "PrintScreen", "Pause", "Numpad0", "Numpad1", "Numpad2",
    "Numpad3", "Numpad4", "Numpad5", "Numpad6", "Numpad7", "Numpad8", "Numpad9", "NumpadAdd",
    "NumpadSubtract", "NumpadMultiply", "NumpadDivide", "NumpadDecimal", "NumpadEnter",
    "NumpadEqual", "Semicolon", "Equal", "Comma", "Minus", "Period", "Slash", "Backquote",
    "BracketLeft", "Backslash", "BracketRight", "Quote",
];

#[test]
fn every_supported_key_name_round_trips() {
    for name in ALL_KEY_NAMES {
        let code = parse_key_code(name).expect("supported name must parse");
        assert_eq!(key_name(code), *name);
    }
}

#[test]
fn key_parsing_is_deterministic() {
    for name in ALL_KEY_NAMES {
        assert_eq!(parse_key_code(name), parse_key_code(name));
    }
}

#[test]
fn key_name_samples() {
    assert_eq!(parse_key_code("Space"), Ok(KeyCode::Space));
    assert_eq!(parse_key_code("NumpadEqual"), Ok(KeyCode::NumpadEqual));
    assert_eq!(parse_key_code("BracketRight"), Ok(KeyCode::BracketRight));
    assert_eq!(key_name(KeyCode::Quote), "Quote");
}

#[test]
fn format_modifiers_is_stable_and_sorted() {
    assert_eq!(format_modifiers(mods(false, false, false, false)), "none");
    assert_eq!(format_modifiers(mods(true, false, false, false)), "ctrl");
    assert_eq!(format_modifiers(mods(false, true, false, false)), "shift");
    assert_eq!(format_modifiers(mods(false, false, true, false)), "alt");
    assert_eq!(format_modifiers(mods(false, false, false, true)), "meta");
    assert_eq!(format_modifiers(mods(true, true, false, false)), "ctrl+shift");
    assert_eq!(format_modifiers(mods(true, false, true, false)), "ctrl+alt");
    assert_eq!(format_modifiers(mods(true, false, false, true)), "ctrl+meta");
    assert_eq!(format_modifiers(mods(false, true, true, false)), "shift+alt");
    assert_eq!(format_modifiers(mods(false, true, false, true)), "shift+meta");
    assert_eq!(format_modifiers(mods(false, false, true, true)), "alt+meta");
    assert_eq!(format_modifiers(mods(true, true, true, false)), "ctrl+shift+alt");
    assert_eq!(format_modifiers(mods(true, true, false, true)), "ctrl+shift+meta");
    assert_eq!(format_modifiers(mods(true, false, true, true)), "ctrl+alt+meta");
    assert_eq!(format_modifiers(mods(false, true, true, true)), "shift+alt+meta");
    assert_eq!(format_modifiers(mods(true, true, true, true)), "ctrl+shift+alt+meta");
}

#[test]
fn modifier_set_round_trips_through_formatting() {
    for ctrl in [false, true] {
        for shift in [false, true] {
            for alt in [false, true] {
                for meta in [false, true] {
                    let m = mods(ctrl, shift, alt, meta);
                    let formatted = format_modifiers(m);
                    let parts: Vec<String> = if formatted == "none" {
                        Vec::new()
                    } else {
                        formatted.split('+').map(|s| s.to_string()).collect()
                    };
                    let r = translate(&parts, "Space");
                    assert_eq!(r, Ok(Shortcut { mods: m, key: KeyCode::Space }));
                }
            }
        }
    }
}

#[test]
fn default_shortcut_is_ctrl_shift_space() {
    let s = default_shortcut();
    assert_eq!(s.mods, mods(true, true, false, false));
    assert_eq!(s.key, KeyCode::Space);
}
