use clip_tray_core::visibility::ScriptedWindow;
use clip_tray_core::visibility::VisAction;
use clip_tray_core::visibility::VisState;
use clip_tray_core::visibility::WindowCall;
use clip_tray_core::visibility::on_key_resigned;
use clip_tray_core::visibility::toggle;

#[test]
fn toggle_from_hidden_shows_and_focuses() {
    let mut w = ScriptedWindow::new(false, false);
    let r = toggle(&mut w);
    assert_eq!(r, Ok(VisState::VisibleFocused));
    assert_eq!(w.calls, vec![WindowCall::Show, WindowCall::Focus]);
    assert!(w.now_visible);
    assert!(w.now_focused);
}

#[test]
fn toggle_from_visible_unfocused_only_refocuses() {
    let mut w = ScriptedWindow::new(true, false);
    let r = toggle(&mut w);
    assert_eq!(r, Ok(VisState::VisibleFocused));
    // no intervening hide, and no show either
    assert_eq!(w.calls, vec![WindowCall::Focus]);
    assert!(w.now_visible);
    assert!(w.now_focused);
}

#[test]
fn toggle_from_visible_focused_hides() {
    let mut w = ScriptedWindow::new(true, true);
    let r = toggle(&mut w);
    assert_eq!(r, Ok(VisState::Hidden));
    assert_eq!(w.calls, vec![WindowCall::Hide]);
    assert!(!w.now_visible);
}

#[test]
fn toggle_cycles_hidden_focused_hidden() {
    let mut w = ScriptedWindow::new(false, false);
    assert_eq!(toggle(&mut w), Ok(VisState::VisibleFocused));
    assert_eq!(toggle(&mut w), Ok(VisState::Hidden));
    assert_eq!(toggle(&mut w), Ok(VisState::VisibleFocused));
}

#[test]
fn failed_show_is_reported_with_the_attempted_action() {
    let mut w = ScriptedWindow::new(false, false);
    w.deny_show = true;
    let r = toggle(&mut w);
    assert_eq!(r.unwrap_err().action, VisAction::Show);
    assert_eq!(w.calls, vec![WindowCall::Show]);
}

#[test]
fn failed_focus_is_reported_with_the_attempted_action() {
    let mut w = ScriptedWindow::new(true, false);
    w.deny_focus = true;
    let r = toggle(&mut w);
    assert_eq!(r.unwrap_err().action, VisAction::Focus);
    assert_eq!(w.calls, vec![WindowCall::Focus]);
}

#[test]
fn failed_hide_is_reported_with_the_attempted_action() {
    let mut w = ScriptedWindow::new(true, true);
    w.deny_hide = true;
    let r = toggle(&mut w);
    assert_eq!(r.unwrap_err().action, VisAction::Hide);
    assert_eq!(w.calls, vec![WindowCall::Hide]);
}

#[test]
fn key_resignation_dismisses_the_panel() {
    let mut w = ScriptedWindow::new(true, false);
    let r = on_key_resigned(&mut w);
    assert_eq!(r, Ok(()));
    assert_eq!(w.calls, vec![WindowCall::Hide]);
    assert!(!w.now_visible);
}
