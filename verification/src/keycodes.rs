//! Translation between textual key and modifier names and hotkey bindings.
//!
//! A shortcut is a set of modifier flags plus exactly one key code. The
//! translator maps an ordered list of modifier names and one key name to a
//! `Shortcut`, rejecting the first unsupported token; the formatting
//! functions render a binding back into the canonical strings the host UI
//! displays. Round-tripping between the two directions is proved below.

use vstd::prelude::*;

use crate::text::str_eq;

verus! {

/// Modifier flags of a shortcut; any combination, including none.
#[derive(Clone, Copy, Debug, PartialEq, Eq, Structural)]
pub struct Modifiers {
    pub ctrl: bool,
    pub shift: bool,
    pub alt: bool,
    pub meta: bool,
}

/// A hotkey binding: a modifier set plus exactly one key code.
#[derive(Clone, Copy, Debug, PartialEq, Eq, Structural)]
pub struct Shortcut {
    pub mods: Modifiers,
    pub key: KeyCode,
}

/// A caller supplied a modifier or key name outside the supported tables;
/// the offending token is carried along.
#[derive(Debug, PartialEq, Eq)]
pub enum TranslateError {
    Modifier(String),
    Key(String),
}

/// Which token of a translation request is at fault, at the level of the
/// mathematical model.
pub enum TranslateFault {
    BadModifier { index: nat },
    BadKey,
}

pub open spec fn no_mods() -> Modifiers {
    Modifiers { ctrl: false, shift: false, alt: false, meta: false }
}

/// One modifier name folded into a modifier set; `None` for an
/// unsupported name. Duplicates collapse and order is irrelevant because
/// each name only sets its flag.
pub open spec fn modifier_applied(m: Modifiers, name: Seq<char>) -> Option<Modifiers> {
    if name == "ctrl"@ {
        Some(Modifiers { ctrl: true, ..m })
    } else if name == "shift"@ {
        Some(Modifiers { shift: true, ..m })
    } else if name == "alt"@ {
        Some(Modifiers { alt: true, ..m })
    } else if name == "meta"@ {
        Some(Modifiers { meta: true, ..m })
    } else {
        None
    }
}

/// Folds a list of modifier names into `m`; `Err(i)` names the first
/// unsupported entry.
pub open spec fn spec_apply_modifiers(m: Modifiers, names: Seq<Seq<char>>) -> Result<
    Modifiers,
    nat,
>
    decreases names.len(),
{
    if names.len() == 0 {
        Ok(m)
    } else {
        match modifier_applied(m, names[0]) {
            Some(m2) => match spec_apply_modifiers(m2, names.drop_first()) {
                Ok(mf) => Ok(mf),
                Err(i) => Err((i + 1) as nat),
            },
            None => Err(0),
        }
    }
}

/// What a translation request denotes: the shortcut, or the first fault.
pub open spec fn spec_translate(names: Seq<Seq<char>>, key: Seq<char>) -> Result<
    Shortcut,
    TranslateFault,
> {
    match spec_apply_modifiers(no_mods(), names) {
        Err(i) => Err(TranslateFault::BadModifier { index: i }),
        Ok(m) => match key_code_of(key) {
            None => Err(TranslateFault::BadKey),
            Some(c) => Ok(Shortcut { mods: m, key: c }),
        },
    }
}

fn apply_modifier(m: Modifiers, name: &str) -> (r: Option<Modifiers>)
    ensures
        r == modifier_applied(m, name@),
{
    if str_eq(name, "ctrl") {
        Some(Modifiers { ctrl: true, ..m })
    } else if str_eq(name, "shift") {
        Some(Modifiers { shift: true, ..m })
    } else if str_eq(name, "alt") {
        Some(Modifiers { alt: true, ..m })
    } else if str_eq(name, "meta") {
        Some(Modifiers { meta: true, ..m })
    } else {
        None
    }
}

/// Maps an ordered list of modifier names plus one key name to a
/// `Shortcut`. Total over all inputs: every outcome, including which
/// token is reported on failure, is pinned by `spec_translate`.
pub fn translate(modifier_names: &Vec<String>, key: &str) -> (r: Result<Shortcut, TranslateError>)
    ensures
        (match spec_translate(modifier_names.deep_view(), key@) {
            Ok(s) => r == Ok::<Shortcut, TranslateError>(s),
            Err(TranslateFault::BadModifier { index }) => (r matches Err(
                TranslateError::Modifier(t),
            ) && t@ == modifier_names.deep_view()[index as int]),
            Err(TranslateFault::BadKey) => (r matches Err(TranslateError::Key(t)) && t@ == key@),
        }),
{
    let ghost names = modifier_names.deep_view();
    let mut m = Modifiers { ctrl: false, shift: false, alt: false, meta: false };
    let mut idx: usize = 0;
    proof {
        assert(names.skip(0) =~= names);
    }
    while idx < modifier_names.len()
        invariant
            idx <= modifier_names.len(),
            names == modifier_names.deep_view(),
            names.len() == modifier_names.len(),
            (match spec_apply_modifiers(m, names.skip(idx as int)) {
                Ok(mf) => spec_apply_modifiers(no_mods(), names) == Ok::<Modifiers, nat>(mf),
                Err(j) => spec_apply_modifiers(no_mods(), names) == Err::<Modifiers, nat>(
                    (idx + j) as nat,
                ),
            }),
        decreases modifier_names.len() - idx,
    {
        let name: &String = &modifier_names[idx];
        proof {
            assert(name@ == names[idx as int]);
            assert(names.skip(idx as int)[0] == names[idx as int]);
            assert(names.skip(idx as int).drop_first() =~= names.skip(idx as int + 1));
        }
        match apply_modifier(m, name.as_str()) {
            Some(m2) => {
                m = m2;
                idx = idx + 1;
            },
            None => {
                return Err(TranslateError::Modifier(name.clone()));
            },
        }
    }
    proof {
        assert(names.skip(idx as int) =~= Seq::<Seq<char>>::empty());
    }
    match parse_key_code(key) {
        Ok(c) => Ok(Shortcut { mods: m, key: c }),
        Err(e) => Err(e),
    }
}

/// The default binding registered at startup: Ctrl+Shift+Space.
pub open spec fn spec_default_shortcut() -> Shortcut {
    Shortcut {
        mods: Modifiers { ctrl: true, shift: true, alt: false, meta: false },
        key: KeyCode::Space,
    }
}

/// The binding the hotkey manager registers when the process starts.
pub fn default_shortcut() -> (r: Shortcut)
    ensures
        r == spec_default_shortcut(),
{
    Shortcut {
        mods: Modifiers { ctrl: true, shift: true, alt: false, meta: false },
        key: KeyCode::Space,
    }
}

/// The canonical, stably ordered modifier-name list of a modifier set:
/// always ctrl, shift, alt, meta.
pub open spec fn mod_names_seq(m: Modifiers) -> Seq<Seq<char>> {
    (if m.ctrl {
        seq!["ctrl"@]
    } else {
        Seq::<Seq<char>>::empty()
    }) + (if m.shift {
        seq!["shift"@]
    } else {
        Seq::<Seq<char>>::empty()
    }) + (if m.alt {
        seq!["alt"@]
    } else {
        Seq::<Seq<char>>::empty()
    }) + (if m.meta {
        seq!["meta"@]
    } else {
        Seq::<Seq<char>>::empty()
    })
}

/// Parts joined with `+` separators.
pub open spec fn joined_names(parts: Seq<Seq<char>>) -> Seq<char>
    decreases parts.len(),
{
    if parts.len() == 0 {
        Seq::<char>::empty()
    } else if parts.len() == 1 {
        parts[0]
    } else {
        parts[0] + "+"@ + joined_names(parts.drop_first())
    }
}

/// The modifiers string the host UI displays: the canonical names joined
/// with `+`, or `none` for the empty set.
pub open spec fn mods_string(m: Modifiers) -> Seq<char> {
    if m == no_mods() {
        "none"@
    } else {
        joined_names(mod_names_seq(m))
    }
}
/// The physical keys that a shortcut may bind, one variant per
/// supported key name.
#[derive(Clone, Copy, Debug, PartialEq, Eq, Structural)]
pub enum KeyCode {
    KeyA, KeyB, KeyC, KeyD, KeyE, KeyF,
    KeyG, KeyH, KeyI, KeyJ, KeyK, KeyL,
    KeyM, KeyN, KeyO, KeyP, KeyQ, KeyR,
    KeyS, KeyT, KeyU, KeyV, KeyW, KeyX,
    KeyY, KeyZ,
    Digit0, Digit1, Digit2, Digit3, Digit4, Digit5,
    Digit6, Digit7, Digit8, Digit9,
    F1, F2, F3, F4, F5, F6,
    F7, F8, F9, F10, F11, F12,
    Space, Tab, Escape, Enter, Backspace, ArrowUp,
    ArrowDown, ArrowLeft, ArrowRight, Delete, Insert, Home,
    End, PageUp, PageDown, CapsLock, ScrollLock, NumLock,
    PrintScreen, Pause,
    Numpad0, Numpad1, Numpad2, Numpad3, Numpad4, Numpad5,
    Numpad6, Numpad7, Numpad8, Numpad9, NumpadAdd, NumpadSubtract,
    NumpadMultiply, NumpadDivide, NumpadDecimal, NumpadEnter, NumpadEqual,
    Semicolon, Equal, Comma, Minus, Period, Slash,
    Backquote, BracketLeft, Backslash, BracketRight, Quote,
}

pub open spec fn letter_code_of(s: Seq<char>) -> Option<KeyCode> {
    if s == "KeyA"@ {
        Some(KeyCode::KeyA)
    } else if s == "KeyB"@ {
        Some(KeyCode::KeyB)
    } else if s == "KeyC"@ {
        Some(KeyCode::KeyC)
    } else if s == "KeyD"@ {
        Some(KeyCode::KeyD)
    } else if s == "KeyE"@ {
        Some(KeyCode::KeyE)
    } else if s == "KeyF"@ {
        Some(KeyCode::KeyF)
    } else if s == "KeyG"@ {
        Some(KeyCode::KeyG)
    } else if s == "KeyH"@ {
        Some(KeyCode::KeyH)
    } else if s == "KeyI"@ {
        Some(KeyCode::KeyI)
    } else if s == "KeyJ"@ {
        Some(KeyCode::KeyJ)
    } else if s == "KeyK"@ {
        Some(KeyCode::KeyK)
    } else if s == "KeyL"@ {
        Some(KeyCode::KeyL)
    } else if s == "KeyM"@ {
        Some(KeyCode::KeyM)
    } else if s == "KeyN"@ {
        Some(KeyCode::KeyN)
    } else if s == "KeyO"@ {
        Some(KeyCode::KeyO)
    } else if s == "KeyP"@ {
        Some(KeyCode::KeyP)
    } else if s == "KeyQ"@ {
        Some(KeyCode::KeyQ)
    } else if s == "KeyR"@ {
        Some(KeyCode::KeyR)
    } else if s == "KeyS"@ {
        Some(KeyCode::KeyS)
    } else if s == "KeyT"@ {
        Some(KeyCode::KeyT)
    } else if s == "KeyU"@ {
        Some(KeyCode::KeyU)
    } else if s == "KeyV"@ {
        Some(KeyCode::KeyV)
    } else if s == "KeyW"@ {
        Some(KeyCode::KeyW)
    } else if s == "KeyX"@ {
        Some(KeyCode::KeyX)
    } else if s == "KeyY"@ {
        Some(KeyCode::KeyY)
    } else if s == "KeyZ"@ {
        Some(KeyCode::KeyZ)
    } else {
        None
    }
}

pub open spec fn digit_code_of(s: Seq<char>) -> Option<KeyCode> {
    if s == "Digit0"@ {
        Some(KeyCode::Digit0)
    } else if s == "Digit1"@ {
        Some(KeyCode::Digit1)
    } else if s == "Digit2"@ {
        Some(KeyCode::Digit2)
    } else if s == "Digit3"@ {
        Some(KeyCode::Digit3)
    } else if s == "Digit4"@ {
        Some(KeyCode::Digit4)
    } else if s == "Digit5"@ {
        Some(KeyCode::Digit5)
    } else if s == "Digit6"@ {
        Some(KeyCode::Digit6)
    } else if s == "Digit7"@ {
        Some(KeyCode::Digit7)
    } else if s == "Digit8"@ {
        Some(KeyCode::Digit8)
    } else if s == "Digit9"@ {
        Some(KeyCode::Digit9)
    } else {
        None
    }
}

pub open spec fn function_key_code_of(s: Seq<char>) -> Option<KeyCode> {
    if s == "F1"@ {
        Some(KeyCode::F1)
    } else if s == "F2"@ {
        Some(KeyCode::F2)
    } else if s == "F3"@ {
        Some(KeyCode::F3)
    } else if s == "F4"@ {
        Some(KeyCode::F4)
    } else if s == "F5"@ {
        Some(KeyCode::F5)
    } else if s == "F6"@ {
        Some(KeyCode::F6)
    } else if s == "F7"@ {
        Some(KeyCode::F7)
    } else if s == "F8"@ {
        Some(KeyCode::F8)
    } else if s == "F9"@ {
        Some(KeyCode::F9)
    } else if s == "F10"@ {
        Some(KeyCode::F10)
    } else if s == "F11"@ {
        Some(KeyCode::F11)
    } else if s == "F12"@ {
        Some(KeyCode::F12)
    } else {
        None
    }
}

pub open spec fn control_key_code_of(s: Seq<char>) -> Option<KeyCode> {
    if s == "Space"@ {
        Some(KeyCode::Space)
    } else if s == "Tab"@ {
        Some(KeyCode::Tab)
    } else if s == "Escape"@ {
        Some(KeyCode::Escape)
    } else if s == "Enter"@ {
        Some(KeyCode::Enter)
    } else if s == "Backspace"@ {
        Some(KeyCode::Backspace)
    } else if s == "ArrowUp"@ {
        Some(KeyCode::ArrowUp)
    } else if s == "ArrowDown"@ {
        Some(KeyCode::ArrowDown)
    } else if s == "ArrowLeft"@ {
        Some(KeyCode::ArrowLeft)
    } else if s == "ArrowRight"@ {
        Some(KeyCode::ArrowRight)
    } else if s == "Delete"@ {
        Some(KeyCode::Delete)
    } else if s == "Insert"@ {
        Some(KeyCode::Insert)
    } else if s == "Home"@ {
        Some(KeyCode::Home)
    } else if s == "End"@ {
        Some(KeyCode::End)
    } else if s == "PageUp"@ {
        Some(KeyCode::PageUp)
    } else if s == "PageDown"@ {
        Some(KeyCode::PageDown)
    } else if s == "CapsLock"@ {
        Some(KeyCode::CapsLock)
    } else if s == "ScrollLock"@ {
        Some(KeyCode::ScrollLock)
    } else if s == "NumLock"@ {
        Some(KeyCode::NumLock)
    } else if s == "PrintScreen"@ {
        Some(KeyCode::PrintScreen)
    } else if s == "Pause"@ {
        Some(KeyCode::Pause)
    } else {
        None
    }
}

pub open spec fn numpad_code_of(s: Seq<char>) -> Option<KeyCode> {
    if s == "Numpad0"@ {
        Some(KeyCode::Numpad0)
    } else if s == "Numpad1"@ {
        Some(KeyCode::Numpad1)
    } else if s == "Numpad2"@ {
        Some(KeyCode::Numpad2)
    } else if s == "Numpad3"@ {
        Some(KeyCode::Numpad3)
    } else if s == "Numpad4"@ {
        Some(KeyCode::Numpad4)
    } else if s == "Numpad5"@ {
        Some(KeyCode::Numpad5)
    } else if s == "Numpad6"@ {
        Some(KeyCode::Numpad6)
    } else if s == "Numpad7"@ {
        Some(KeyCode::Numpad7)
    } else if s == "Numpad8"@ {
        Some(KeyCode::Numpad8)
    } else if s == "Numpad9"@ {
        Some(KeyCode::Numpad9)
    } else if s == "NumpadAdd"@ {
        Some(KeyCode::NumpadAdd)
    } else if s == "NumpadSubtract"@ {
        Some(KeyCode::NumpadSubtract)
    } else if s == "NumpadMultiply"@ {
        Some(KeyCode::NumpadMultiply)
    } else if s == "NumpadDivide"@ {
        Some(KeyCode::NumpadDivide)
    } else if s == "NumpadDecimal"@ {
        Some(KeyCode::NumpadDecimal)
    } else if s == "NumpadEnter"@ {
        Some(KeyCode::NumpadEnter)
    } else if s == "NumpadEqual"@ {
        Some(KeyCode::NumpadEqual)
    } else {
        None
    }
}

pub open spec fn punctuation_code_of(s: Seq<char>) -> Option<KeyCode> {
    if s == "Semicolon"@ {
        Some(KeyCode::Semicolon)
    } else if s == "Equal"@ {
        Some(KeyCode::Equal)
    } else if s == "Comma"@ {
        Some(KeyCode::Comma)
    } else if s == "Minus"@ {
        Some(KeyCode::Minus)
    } else if s == "Period"@ {
        Some(KeyCode::Period)
    } else if s == "Slash"@ {
        Some(KeyCode::Slash)
    } else if s == "Backquote"@ {
        Some(KeyCode::Backquote)
    } else if s == "BracketLeft"@ {
        Some(KeyCode::BracketLeft)
    } else if s == "Backslash"@ {
        Some(KeyCode::Backslash)
    } else if s == "BracketRight"@ {
        Some(KeyCode::BracketRight)
    } else if s == "Quote"@ {
        Some(KeyCode::Quote)
    } else {
        None
    }
}

/// The fixed table of supported key names.
pub open spec fn key_code_of(s: Seq<char>) -> Option<KeyCode> {
    if letter_code_of(s) is Some {
        letter_code_of(s)
    } else if digit_code_of(s) is Some {
        digit_code_of(s)
    } else if function_key_code_of(s) is Some {
        function_key_code_of(s)
    } else if control_key_code_of(s) is Some {
        control_key_code_of(s)
    } else if numpad_code_of(s) is Some {
        numpad_code_of(s)
    } else {
        punctuation_code_of(s)
    }
}

/// The canonical name of each supported key; inverse of `key_code_of`.
pub open spec fn spec_key_name(c: KeyCode) -> Seq<char> {
    match c {
        KeyCode::KeyA => "KeyA"@,
        KeyCode::KeyB => "KeyB"@,
        KeyCode::KeyC => "KeyC"@,
        KeyCode::KeyD => "KeyD"@,
        KeyCode::KeyE => "KeyE"@,
        KeyCode::KeyF => "KeyF"@,
        KeyCode::KeyG => "KeyG"@,
        KeyCode::KeyH => "KeyH"@,
        KeyCode::KeyI => "KeyI"@,
        KeyCode::KeyJ => "KeyJ"@,
        KeyCode::KeyK => "KeyK"@,
        KeyCode::KeyL => "KeyL"@,
        KeyCode::KeyM => "KeyM"@,
        KeyCode::KeyN => "KeyN"@,
        KeyCode::KeyO => "KeyO"@,
        KeyCode::KeyP => "KeyP"@,
        KeyCode::KeyQ => "KeyQ"@,
        KeyCode::KeyR => "KeyR"@,
        KeyCode::KeyS => "KeyS"@,
        KeyCode::KeyT => "KeyT"@,
        KeyCode::KeyU => "KeyU"@,
        KeyCode::KeyV => "KeyV"@,
        KeyCode::KeyW => "KeyW"@,
        KeyCode::KeyX => "KeyX"@,
        KeyCode::KeyY => "KeyY"@,
        KeyCode::KeyZ => "KeyZ"@,
        KeyCode::Digit0 => "Digit0"@,
        KeyCode::Digit1 => "Digit1"@,
        KeyCode::Digit2 => "Digit2"@,
        KeyCode::Digit3 => "Digit3"@,
        KeyCode::Digit4 => "Digit4"@,
        KeyCode::Digit5 => "Digit5"@,
        KeyCode::Digit6 => "Digit6"@,
        KeyCode::Digit7 => "Digit7"@,
        KeyCode::Digit8 => "Digit8"@,
        KeyCode::Digit9 => "Digit9"@,
        KeyCode::F1 => "F1"@,
        KeyCode::F2 => "F2"@,
        KeyCode::F3 => "F3"@,
        KeyCode::F4 => "F4"@,
        KeyCode::F5 => "F5"@,
        KeyCode::F6 => "F6"@,
        KeyCode::F7 => "F7"@,
        KeyCode::F8 => "F8"@,
        KeyCode::F9 => "F9"@,
        KeyCode::F10 => "F10"@,
        KeyCode::F11 => "F11"@,
        KeyCode::F12 => "F12"@,
        KeyCode::Space => "Space"@,
        KeyCode::Tab => "Tab"@,
        KeyCode::Escape => "Escape"@,
        KeyCode::Enter => "Enter"@,
        KeyCode::Backspace => "Backspace"@,
        KeyCode::ArrowUp => "ArrowUp"@,
        KeyCode::ArrowDown => "ArrowDown"@,
        KeyCode::ArrowLeft => "ArrowLeft"@,
        KeyCode::ArrowRight => "ArrowRight"@,
        KeyCode::Delete => "Delete"@,
        KeyCode::Insert => "Insert"@,
        KeyCode::Home => "Home"@,
        KeyCode::End => "End"@,
        KeyCode::PageUp => "PageUp"@,
        KeyCode::PageDown => "PageDown"@,
        KeyCode::CapsLock => "CapsLock"@,
        KeyCode::ScrollLock => "ScrollLock"@,
        KeyCode::NumLock => "NumLock"@,
        KeyCode::PrintScreen => "PrintScreen"@,
        KeyCode::Pause => "Pause"@,
        KeyCode::Numpad0 => "Numpad0"@,
        KeyCode::Numpad1 => "Numpad1"@,
        KeyCode::Numpad2 => "Numpad2"@,
        KeyCode::Numpad3 => "Numpad3"@,
        KeyCode::Numpad4 => "Numpad4"@,
        KeyCode::Numpad5 => "Numpad5"@,
        KeyCode::Numpad6 => "Numpad6"@,
        KeyCode::Numpad7 => "Numpad7"@,
        KeyCode::Numpad8 => "Numpad8"@,
        KeyCode::Numpad9 => "Numpad9"@,
        KeyCode::NumpadAdd => "NumpadAdd"@,
        KeyCode::NumpadSubtract => "NumpadSubtract"@,
        KeyCode::NumpadMultiply => "NumpadMultiply"@,
        KeyCode::NumpadDivide => "NumpadDivide"@,
        KeyCode::NumpadDecimal => "NumpadDecimal"@,
        KeyCode::NumpadEnter => "NumpadEnter"@,
        KeyCode::NumpadEqual => "NumpadEqual"@,
        KeyCode::Semicolon => "Semicolon"@,
        KeyCode::Equal => "Equal"@,
        KeyCode::Comma => "Comma"@,
        KeyCode::Minus => "Minus"@,
        KeyCode::Period => "Period"@,
        KeyCode::Slash => "Slash"@,
        KeyCode::Backquote => "Backquote"@,
        KeyCode::BracketLeft => "BracketLeft"@,
        KeyCode::Backslash => "Backslash"@,
        KeyCode::BracketRight => "BracketRight"@,
        KeyCode::Quote => "Quote"@,
    }
}

fn parse_letter(name: &str) -> (r: Option<KeyCode>)
    ensures
        r == letter_code_of(name@),
{
    if str_eq(name, "KeyA") {
        Some(KeyCode::KeyA)
    } else if str_eq(name, "KeyB") {
        Some(KeyCode::KeyB)
    } else if str_eq(name, "KeyC") {
        Some(KeyCode::KeyC)
    } else if str_eq(name, "KeyD") {
        Some(KeyCode::KeyD)
    } else if str_eq(name, "KeyE") {
        Some(KeyCode::KeyE)
    } else if str_eq(name, "KeyF") {
        Some(KeyCode::KeyF)
    } else if str_eq(name, "KeyG") {
        Some(KeyCode::KeyG)
    } else if str_eq(name, "KeyH") {
        Some(KeyCode::KeyH)
    } else if str_eq(name, "KeyI") {
        Some(KeyCode::KeyI)
    } else if str_eq(name, "KeyJ") {
        Some(KeyCode::KeyJ)
    } else if str_eq(name, "KeyK") {
        Some(KeyCode::KeyK)
    } else if str_eq(name, "KeyL") {
        Some(KeyCode::KeyL)
    } else if str_eq(name, "KeyM") {
        Some(KeyCode::KeyM)
    } else if str_eq(name, "KeyN") {
        Some(KeyCode::KeyN)
    } else if str_eq(name, "KeyO") {
        Some(KeyCode::KeyO)
    } else if str_eq(name, "KeyP") {
        Some(KeyCode::KeyP)
    } else if str_eq(name, "KeyQ") {
        Some(KeyCode::KeyQ)
    } else if str_eq(name, "KeyR") {
        Some(KeyCode::KeyR)
    } else if str_eq(name, "KeyS") {
        Some(KeyCode::KeyS)
    } else if str_eq(name, "KeyT") {
        Some(KeyCode::KeyT)
    } else if str_eq(name, "KeyU") {
        Some(KeyCode::KeyU)
    } else if str_eq(name, "KeyV") {
        Some(KeyCode::KeyV)
    } else if str_eq(name, "KeyW") {
        Some(KeyCode::KeyW)
    } else if str_eq(name, "KeyX") {
        Some(KeyCode::KeyX)
    } else if str_eq(name, "KeyY") {
        Some(KeyCode::KeyY)
    } else if str_eq(name, "KeyZ") {
        Some(KeyCode::KeyZ)
    } else {
        None
    }
}

fn parse_digit(name: &str) -> (r: Option<KeyCode>)
    ensures
        r == digit_code_of(name@),
{
    if str_eq(name, "Digit0") {
        Some(KeyCode::Digit0)
    } else if str_eq(name, "Digit1") {
        Some(KeyCode::Digit1)
    } else if str_eq(name, "Digit2") {
        Some(KeyCode::Digit2)
    } else if str_eq(name, "Digit3") {
        Some(KeyCode::Digit3)
    } else if str_eq(name, "Digit4") {
        Some(KeyCode::Digit4)
    } else if str_eq(name, "Digit5") {
        Some(KeyCode::Digit5)
    } else if str_eq(name, "Digit6") {
        Some(KeyCode::Digit6)
    } else if str_eq(name, "Digit7") {
        Some(KeyCode::Digit7)
    } else if str_eq(name, "Digit8") {
        Some(KeyCode::Digit8)
    } else if str_eq(name, "Digit9") {
        Some(KeyCode::Digit9)
    } else {
        None
    }
}

fn parse_function_key(name: &str) -> (r: Option<KeyCode>)
    ensures
        r == function_key_code_of(name@),
{
    if str_eq(name, "F1") {
        Some(KeyCode::F1)
    } else if str_eq(name, "F2") {
        Some(KeyCode::F2)
    } else if str_eq(name, "F3") {
        Some(KeyCode::F3)
    } else if str_eq(name, "F4") {
        Some(KeyCode::F4)
    } else if str_eq(name, "F5") {
        Some(KeyCode::F5)
    } else if str_eq(name, "F6") {
        Some(KeyCode::F6)
    } else if str_eq(name, "F7") {
        Some(KeyCode::F7)
    } else if str_eq(name, "F8") {
        Some(KeyCode::F8)
    } else if str_eq(name, "F9") {
        Some(KeyCode::F9)
    } else if str_eq(name, "F10") {
        Some(KeyCode::F10)
    } else if str_eq(name, "F11") {
        Some(KeyCode::F11)
    } else if str_eq(name, "F12") {
        Some(KeyCode::F12)
    } else {
        None
    }
}

fn parse_control_key(name: &str) -> (r: Option<KeyCode>)
    ensures
        r == control_key_code_of(name@),
{
    if str_eq(name, "Space") {
        Some(KeyCode::Space)
    } else if str_eq(name, "Tab") {
        Some(KeyCode::Tab)
    } else if str_eq(name, "Escape") {
        Some(KeyCode::Escape)
    } else if str_eq(name, "Enter") {
        Some(KeyCode::Enter)
    } else if str_eq(name, "Backspace") {
        Some(KeyCode::Backspace)
    } else if str_eq(name, "ArrowUp") {
        Some(KeyCode::ArrowUp)
    } else if str_eq(name, "ArrowDown") {
        Some(KeyCode::ArrowDown)
    } else if str_eq(name, "ArrowLeft") {
        Some(KeyCode::ArrowLeft)
    } else if str_eq(name, "ArrowRight") {
        Some(KeyCode::ArrowRight)
    } else if str_eq(name, "Delete") {
        Some(KeyCode::Delete)
    } else if str_eq(name, "Insert") {
        Some(KeyCode::Insert)
    } else if str_eq(name, "Home") {
        Some(KeyCode::Home)
    } else if str_eq(name, "End") {
        Some(KeyCode::End)
    } else if str_eq(name, "PageUp") {
        Some(KeyCode::PageUp)
    } else if str_eq(name, "PageDown") {
        Some(KeyCode::PageDown)
    } else if str_eq(name, "CapsLock") {
        Some(KeyCode::CapsLock)
    } else if str_eq(name, "ScrollLock") {
        Some(KeyCode::ScrollLock)
    } else if str_eq(name, "NumLock") {
        Some(KeyCode::NumLock)
    } else if str_eq(name, "PrintScreen") {
        Some(KeyCode::PrintScreen)
    } else if str_eq(name, "Pause") {
        Some(KeyCode::Pause)
    } else {
        None
    }
}

fn parse_numpad(name: &str) -> (r: Option<KeyCode>)
    ensures
        r == numpad_code_of(name@),
{
    if str_eq(name, "Numpad0") {
        Some(KeyCode::Numpad0)
    } else if str_eq(name, "Numpad1") {
        Some(KeyCode::Numpad1)
    } else if str_eq(name, "Numpad2") {
        Some(KeyCode::Numpad2)
    } else if str_eq(name, "Numpad3") {
        Some(KeyCode::Numpad3)
    } else if str_eq(name, "Numpad4") {
        Some(KeyCode::Numpad4)
    } else if str_eq(name, "Numpad5") {
        Some(KeyCode::Numpad5)
    } else if str_eq(name, "Numpad6") {
        Some(KeyCode::Numpad6)
    } else if str_eq(name, "Numpad7") {
        Some(KeyCode::Numpad7)
    } else if str_eq(name, "Numpad8") {
        Some(KeyCode::Numpad8)
    } else if str_eq(name, "Numpad9") {
        Some(KeyCode::Numpad9)
    } else if str_eq(name, "NumpadAdd") {
        Some(KeyCode::NumpadAdd)
    } else if str_eq(name, "NumpadSubtract") {
        Some(KeyCode::NumpadSubtract)
    } else if str_eq(name, "NumpadMultiply") {
        Some(KeyCode::NumpadMultiply)
    } else if str_eq(name, "NumpadDivide") {
        Some(KeyCode::NumpadDivide)
    } else if str_eq(name, "NumpadDecimal") {
        Some(KeyCode::NumpadDecimal)
    } else if str_eq(name, "NumpadEnter") {
        Some(KeyCode::NumpadEnter)
    } else if str_eq(name, "NumpadEqual") {
        Some(KeyCode::NumpadEqual)
    } else {
        None
    }
}

fn parse_punctuation(name: &str) -> (r: Option<KeyCode>)
    ensures
        r == punctuation_code_of(name@),
{
    if str_eq(name, "Semicolon") {
        Some(KeyCode::Semicolon)
    } else if str_eq(name, "Equal") {
        Some(KeyCode::Equal)
    } else if str_eq(name, "Comma") {
        Some(KeyCode::Comma)
    } else if str_eq(name, "Minus") {
        Some(KeyCode::Minus)
    } else if str_eq(name, "Period") {
        Some(KeyCode::Period)
    } else if str_eq(name, "Slash") {
        Some(KeyCode::Slash)
    } else if str_eq(name, "Backquote") {
        Some(KeyCode::Backquote)
    } else if str_eq(name, "BracketLeft") {
        Some(KeyCode::BracketLeft)
    } else if str_eq(name, "Backslash") {
        Some(KeyCode::Backslash)
    } else if str_eq(name, "BracketRight") {
        Some(KeyCode::BracketRight)
    } else if str_eq(name, "Quote") {
        Some(KeyCode::Quote)
    } else {
        None
    }
}

/// Looks a key name up in the fixed table of supported keys.
pub fn parse_key_code(name: &str) -> (r: Result<KeyCode, TranslateError>)
    ensures
        (match key_code_of(name@) {
            Some(c) => r == Ok::<KeyCode, TranslateError>(c),
            None => (r matches Err(TranslateError::Key(t)) && t@ == name@),
        }),
{
    if let Some(c) = parse_letter(name) {
        return Ok(c);
    }
    if let Some(c) = parse_digit(name) {
        return Ok(c);
    }
    if let Some(c) = parse_function_key(name) {
        return Ok(c);
    }
    if let Some(c) = parse_control_key(name) {
        return Ok(c);
    }
    if let Some(c) = parse_numpad(name) {
        return Ok(c);
    }
    if let Some(c) = parse_punctuation(name) {
        return Ok(c);
    }
    Err(TranslateError::Key(name.to_owned()))
}

/// The canonical printable name of a key, as reported to the host UI.
pub fn key_name(c: KeyCode) -> (r: &'static str)
    ensures
        r@ == spec_key_name(c),
{
    match c {
        KeyCode::KeyA => "KeyA",
        KeyCode::KeyB => "KeyB",
        KeyCode::KeyC => "KeyC",
        KeyCode::KeyD => "KeyD",
        KeyCode::KeyE => "KeyE",
        KeyCode::KeyF => "KeyF",
        KeyCode::KeyG => "KeyG",
        KeyCode::KeyH => "KeyH",
        KeyCode::KeyI => "KeyI",
        KeyCode::KeyJ => "KeyJ",
        KeyCode::KeyK => "KeyK",
        KeyCode::KeyL => "KeyL",
        KeyCode::KeyM => "KeyM",
        KeyCode::KeyN => "KeyN",
        KeyCode::KeyO => "KeyO",
        KeyCode::KeyP => "KeyP",
        KeyCode::KeyQ => "KeyQ",
        KeyCode::KeyR => "KeyR",
        KeyCode::KeyS => "KeyS",
        KeyCode::KeyT => "KeyT",
        KeyCode::KeyU => "KeyU",
        KeyCode::KeyV => "KeyV",
        KeyCode::KeyW => "KeyW",
        KeyCode::KeyX => "KeyX",
        KeyCode::KeyY => "KeyY",
        KeyCode::KeyZ => "KeyZ",
        KeyCode::Digit0 => "Digit0",
        KeyCode::Digit1 => "Digit1",
        KeyCode::Digit2 => "Digit2",
        KeyCode::Digit3 => "Digit3",
        KeyCode::Digit4 => "Digit4",
        KeyCode::Digit5 => "Digit5",
        KeyCode::Digit6 => "Digit6",
        KeyCode::Digit7 => "Digit7",
        KeyCode::Digit8 => "Digit8",
        KeyCode::Digit9 => "Digit9",
        KeyCode::F1 => "F1",
        KeyCode::F2 => "F2",
        KeyCode::F3 => "F3",
        KeyCode::F4 => "F4",
        KeyCode::F5 => "F5",
        KeyCode::F6 => "F6",
        KeyCode::F7 => "F7",
        KeyCode::F8 => "F8",
        KeyCode::F9 => "F9",
        KeyCode::F10 => "F10",
        KeyCode::F11 => "F11",
        KeyCode::F12 => "F12",
        KeyCode::Space => "Space",
        KeyCode::Tab => "Tab",
        KeyCode::Escape => "Escape",
        KeyCode::Enter => "Enter",
        KeyCode::Backspace => "Backspace",
        KeyCode::ArrowUp => "ArrowUp",
        KeyCode::ArrowDown => "ArrowDown",
        KeyCode::ArrowLeft => "ArrowLeft",
        KeyCode::ArrowRight => "ArrowRight",
        KeyCode::Delete => "Delete",
        KeyCode::Insert => "Insert",
        KeyCode::Home => "Home",
        KeyCode::End => "End",
        KeyCode::PageUp => "PageUp",
        KeyCode::PageDown => "PageDown",
        KeyCode::CapsLock => "CapsLock",
        KeyCode::ScrollLock => "ScrollLock",
        KeyCode::NumLock => "NumLock",
        KeyCode::PrintScreen => "PrintScreen",
        KeyCode::Pause => "Pause",
        KeyCode::Numpad0 => "Numpad0",
        KeyCode::Numpad1 => "Numpad1",
        KeyCode::Numpad2 => "Numpad2",
        KeyCode::Numpad3 => "Numpad3",
        KeyCode::Numpad4 => "Numpad4",
        KeyCode::Numpad5 => "Numpad5",
        KeyCode::Numpad6 => "Numpad6",
        KeyCode::Numpad7 => "Numpad7",
        KeyCode::Numpad8 => "Numpad8",
        KeyCode::Numpad9 => "Numpad9",
        KeyCode::NumpadAdd => "NumpadAdd",
        KeyCode::NumpadSubtract => "NumpadSubtract",
        KeyCode::NumpadMultiply => "NumpadMultiply",
        KeyCode::NumpadDivide => "NumpadDivide",
        KeyCode::NumpadDecimal => "NumpadDecimal",
        KeyCode::NumpadEnter => "NumpadEnter",
        KeyCode::NumpadEqual => "NumpadEqual",
        KeyCode::Semicolon => "Semicolon",
        KeyCode::Equal => "Equal",
        KeyCode::Comma => "Comma",
        KeyCode::Minus => "Minus",
        KeyCode::Period => "Period",
        KeyCode::Slash => "Slash",
        KeyCode::Backquote => "Backquote",
        KeyCode::BracketLeft => "BracketLeft",
        KeyCode::Backslash => "Backslash",
        KeyCode::BracketRight => "BracketRight",
        KeyCode::Quote => "Quote",
    }
}

/// Every supported key's canonical name parses back to that key.
#[verifier::rlimit(100)]
pub proof fn lemma_key_name_parses(c: KeyCode)
    ensures
        key_code_of(spec_key_name(c)) == Some(c),
{
    reveal_strlit("KeyA");
    reveal_strlit("KeyB");
    reveal_strlit("KeyC");
    reveal_strlit("KeyD");
    reveal_strlit("KeyE");
    reveal_strlit("KeyF");
    reveal_strlit("KeyG");
    reveal_strlit("KeyH");
    reveal_strlit("KeyI");
    reveal_strlit("KeyJ");
    reveal_strlit("KeyK");
    reveal_strlit("KeyL");
    reveal_strlit("KeyM");
    reveal_strlit("KeyN");
    reveal_strlit("KeyO");
    reveal_strlit("KeyP");
    reveal_strlit("KeyQ");
    reveal_strlit("KeyR");
    reveal_strlit("KeyS");
    reveal_strlit("KeyT");
    reveal_strlit("KeyU");
    reveal_strlit("KeyV");
    reveal_strlit("KeyW");
    reveal_strlit("KeyX");
    reveal_strlit("KeyY");
    reveal_strlit("KeyZ");
    reveal_strlit("Digit0");
    reveal_strlit("Digit1");
    reveal_strlit("Digit2");
    reveal_strlit("Digit3");
    reveal_strlit("Digit4");
    reveal_strlit("Digit5");
    reveal_strlit("Digit6");
    reveal_strlit("Digit7");
    reveal_strlit("Digit8");
    reveal_strlit("Digit9");
    reveal_strlit("F1");
    reveal_strlit("F2");
    reveal_strlit("F3");
    reveal_strlit("F4");
    reveal_strlit("F5");
    reveal_strlit("F6");
    reveal_strlit("F7");
    reveal_strlit("F8");
    reveal_strlit("F9");
    reveal_strlit("F10");
    reveal_strlit("F11");
    reveal_strlit("F12");
    reveal_strlit("Space");
    reveal_strlit("Tab");
    reveal_strlit("Escape");
    reveal_strlit("Enter");
    reveal_strlit("Backspace");
    reveal_strlit("ArrowUp");
    reveal_strlit("ArrowDown");
    reveal_strlit("ArrowLeft");
    reveal_strlit("ArrowRight");
    reveal_strlit("Delete");
    reveal_strlit("Insert");
    reveal_strlit("Home");
    reveal_strlit("End");
    reveal_strlit("PageUp");
    reveal_strlit("PageDown");
    reveal_strlit("CapsLock");
    reveal_strlit("ScrollLock");
    reveal_strlit("NumLock");
    reveal_strlit("PrintScreen");
    reveal_strlit("Pause");
    reveal_strlit("Numpad0");
    reveal_strlit("Numpad1");
    reveal_strlit("Numpad2");
    reveal_strlit("Numpad3");
    reveal_strlit("Numpad4");
    reveal_strlit("Numpad5");
    reveal_strlit("Numpad6");
    reveal_strlit("Numpad7");
    reveal_strlit("Numpad8");
    reveal_strlit("Numpad9");
    reveal_strlit("NumpadAdd");
    reveal_strlit("NumpadSubtract");
    reveal_strlit("NumpadMultiply");
    reveal_strlit("NumpadDivide");
    reveal_strlit("NumpadDecimal");
    reveal_strlit("NumpadEnter");
    reveal_strlit("NumpadEqual");
    reveal_strlit("Semicolon");
    reveal_strlit("Equal");
    reveal_strlit("Comma");
    reveal_strlit("Minus");
    reveal_strlit("Period");
    reveal_strlit("Slash");
    reveal_strlit("Backquote");
    reveal_strlit("BracketLeft");
    reveal_strlit("Backslash");
    reveal_strlit("BracketRight");
    reveal_strlit("Quote");
    assert("KeyA"@.len() == 4);
    assert("KeyA"@[0] == 'K');
    assert("KeyA"@[1] == 'e');
    assert("KeyA"@[2] == 'y');
    assert("KeyA"@[3] == 'A');
    assert("KeyB"@.len() == 4);
    assert("KeyB"@[0] == 'K');
    assert("KeyB"@[1] == 'e');
    assert("KeyB"@[2] == 'y');
    assert("KeyB"@[3] == 'B');
    assert("KeyC"@.len() == 4);
    assert("KeyC"@[0] == 'K');
    assert("KeyC"@[1] == 'e');
    assert("KeyC"@[2] == 'y');
    assert("KeyC"@[3] == 'C');
    assert("KeyD"@.len() == 4);
    assert("KeyD"@[0] == 'K');
    assert("KeyD"@[1] == 'e');
    assert("KeyD"@[2] == 'y');
    assert("KeyD"@[3] == 'D');
    assert("KeyE"@.len() == 4);
    assert("KeyE"@[0] == 'K');
    assert("KeyE"@[1] == 'e');
    assert("KeyE"@[2] == 'y');
    assert("KeyE"@[3] == 'E');
    assert("KeyF"@.len() == 4);
    assert("KeyF"@[0] == 'K');
    assert("KeyF"@[1] == 'e');
    assert("KeyF"@[2] == 'y');
    assert("KeyF"@[3] == 'F');
    assert("KeyG"@.len() == 4);
    assert("KeyG"@[0] == 'K');
    assert("KeyG"@[1] == 'e');
    assert("KeyG"@[2] == 'y');
    assert("KeyG"@[3] == 'G');
    assert("KeyH"@.len() == 4);
    assert("KeyH"@[0] == 'K');
    assert("KeyH"@[1] == 'e');
    assert("KeyH"@[2] == 'y');
    assert("KeyH"@[3] == 'H');
    assert("KeyI"@.len() == 4);
    assert("KeyI"@[0] == 'K');
    assert("KeyI"@[1] == 'e');
    assert("KeyI"@[2] == 'y');
    assert("KeyI"@[3] == 'I');
    assert("KeyJ"@.len() == 4);
    assert("KeyJ"@[0] == 'K');
    assert("KeyJ"@[1] == 'e');
    assert("KeyJ"@[2] == 'y');
    assert("KeyJ"@[3] == 'J');
    assert("KeyK"@.len() == 4);
    assert("KeyK"@[0] == 'K');
    assert("KeyK"@[1] == 'e');
    assert("KeyK"@[2] == 'y');
    assert("KeyK"@[3] == 'K');
    assert("KeyL"@.len() == 4);
    assert("KeyL"@[0] == 'K');
    assert("KeyL"@[1] == 'e');
    assert("KeyL"@[2] == 'y');
    assert("KeyL"@[3] == 'L');
    assert("KeyM"@.len() == 4);
    assert("KeyM"@[0] == 'K');
    assert("KeyM"@[1] == 'e');
    assert("KeyM"@[2] == 'y');
    assert("KeyM"@[3] == 'M');
    assert("KeyN"@.len() == 4);
    assert("KeyN"@[0] == 'K');
    assert("KeyN"@[1] == 'e');
    assert("KeyN"@[2] == 'y');
    assert("KeyN"@[3] == 'N');
    assert("KeyO"@.len() == 4);
    assert("KeyO"@[0] == 'K');
    assert("KeyO"@[1] == 'e');
    assert("KeyO"@[2] == 'y');
    assert("KeyO"@[3] == 'O');
    assert("KeyP"@.len() == 4);
    assert("KeyP"@[0] == 'K');
    assert("KeyP"@[1] == 'e');
    assert("KeyP"@[2] == 'y');
    assert("KeyP"@[3] == 'P');
    assert("KeyQ"@.len() == 4);
    assert("KeyQ"@[0] == 'K');
    assert("KeyQ"@[1] == 'e');
    assert("KeyQ"@[2] == 'y');
    assert("KeyQ"@[3] == 'Q');
    assert("KeyR"@.len() == 4);
    assert("KeyR"@[0] == 'K');
    assert("KeyR"@[1] == 'e');
    assert("KeyR"@[2] == 'y');
    assert("KeyR"@[3] == 'R');
    assert("KeyS"@.len() == 4);
    assert("KeyS"@[0] == 'K');
    assert("KeyS"@[1] == 'e');
    assert("KeyS"@[2] == 'y');
    assert("KeyS"@[3] == 'S');
    assert("KeyT"@.len() == 4);
    assert("KeyT"@[0] == 'K');
    assert("KeyT"@[1] == 'e');
    assert("KeyT"@[2] == 'y');
    assert("KeyT"@[3] == 'T');
    assert("KeyU"@.len() == 4);
    assert("KeyU"@[0] == 'K');
    assert("KeyU"@[1] == 'e');
    assert("KeyU"@[2] == 'y');
    assert("KeyU"@[3] == 'U');
    assert("KeyV"@.len() == 4);
    assert("KeyV"@[0] == 'K');
    assert("KeyV"@[1] == 'e');
    assert("KeyV"@[2] == 'y');
    assert("KeyV"@[3] == 'V');
    assert("KeyW"@.len() == 4);
    assert("KeyW"@[0] == 'K');
    assert("KeyW"@[1] == 'e');
    assert("KeyW"@[2] == 'y');
    assert("KeyW"@[3] == 'W');
    assert("KeyX"@.len() == 4);
    assert("KeyX"@[0] == 'K');
    assert("KeyX"@[1] == 'e');
    assert("KeyX"@[2] == 'y');
    assert("KeyX"@[3] == 'X');
    assert("KeyY"@.len() == 4);
    assert("KeyY"@[0] == 'K');
    assert("KeyY"@[1] == 'e');
    assert("KeyY"@[2] == 'y');
    assert("KeyY"@[3] == 'Y');
    assert("KeyZ"@.len() == 4);
    assert("KeyZ"@[0] == 'K');
    assert("KeyZ"@[1] == 'e');
    assert("KeyZ"@[2] == 'y');
    assert("KeyZ"@[3] == 'Z');
    assert("Digit0"@.len() == 6);
    assert("Digit0"@[0] == 'D');
    assert("Digit0"@[1] == 'i');
    assert("Digit0"@[2] == 'g');
    assert("Digit0"@[3] == 'i');
    assert("Digit0"@[4] == 't');
    assert("Digit0"@[5] == '0');
    assert("Digit1"@.len() == 6);
    assert("Digit1"@[0] == 'D');
    assert("Digit1"@[1] == 'i');
    assert("Digit1"@[2] == 'g');
    assert("Digit1"@[3] == 'i');
    assert("Digit1"@[4] == 't');
    assert("Digit1"@[5] == '1');
    assert("Digit2"@.len() == 6);
    assert("Digit2"@[0] == 'D');
    assert("Digit2"@[1] == 'i');
    assert("Digit2"@[2] == 'g');
    assert("Digit2"@[3] == 'i');
    assert("Digit2"@[4] == 't');
    assert("Digit2"@[5] == '2');
    assert("Digit3"@.len() == 6);
    assert("Digit3"@[0] == 'D');
    assert("Digit3"@[1] == 'i');
    assert("Digit3"@[2] == 'g');
    assert("Digit3"@[3] == 'i');
    assert("Digit3"@[4] == 't');
    assert("Digit3"@[5] == '3');
    assert("Digit4"@.len() == 6);
    assert("Digit4"@[0] == 'D');
    assert("Digit4"@[1] == 'i');
    assert("Digit4"@[2] == 'g');
    assert("Digit4"@[3] == 'i');
    assert("Digit4"@[4] == 't');
    assert("Digit4"@[5] == '4');
    assert("Digit5"@.len() == 6);
    assert("Digit5"@[0] == 'D');
    assert("Digit5"@[1] == 'i');
    assert("Digit5"@[2] == 'g');
    assert("Digit5"@[3] == 'i');
    assert("Digit5"@[4] == 't');
    assert("Digit5"@[5] == '5');
    assert("Digit6"@.len() == 6);
    assert("Digit6"@[0] == 'D');
    assert("Digit6"@[1] == 'i');
    assert("Digit6"@[2] == 'g');
    assert("Digit6"@[3] == 'i');
    assert("Digit6"@[4] == 't');
    assert("Digit6"@[5] == '6');
    assert("Digit7"@.len() == 6);
    assert("Digit7"@[0] == 'D');
    assert("Digit7"@[1] == 'i');
    assert("Digit7"@[2] == 'g');
    assert("Digit7"@[3] == 'i');
    assert("Digit7"@[4] == 't');
    assert("Digit7"@[5] == '7');
    assert("Digit8"@.len() == 6);
    assert("Digit8"@[0] == 'D');
    assert("Digit8"@[1] == 'i');
    assert("Digit8"@[2] == 'g');
    assert("Digit8"@[3] == 'i');
    assert("Digit8"@[4] == 't');
    assert("Digit8"@[5] == '8');
    assert("Digit9"@.len() == 6);
    assert("Digit9"@[0] == 'D');
    assert("Digit9"@[1] == 'i');
    assert("Digit9"@[2] == 'g');
    assert("Digit9"@[3] == 'i');
    assert("Digit9"@[4] == 't');
    assert("Digit9"@[5] == '9');
    assert("F1"@.len() == 2);
    assert("F1"@[0] == 'F');
    assert("F1"@[1] == '1');
    assert("F2"@.len() == 2);
    assert("F2"@[0] == 'F');
    assert("F2"@[1] == '2');
    assert("F3"@.len() == 2);
    assert("F3"@[0] == 'F');
    assert("F3"@[1] == '3');
    assert("F4"@.len() == 2);
    assert("F4"@[0] == 'F');
    assert("F4"@[1] == '4');
    assert("F5"@.len() == 2);
    assert("F5"@[0] == 'F');
    assert("F5"@[1] == '5');
    assert("F6"@.len() == 2);
    assert("F6"@[0] == 'F');
    assert("F6"@[1] == '6');
    assert("F7"@.len() == 2);
    assert("F7"@[0] == 'F');
    assert("F7"@[1] == '7');
    assert("F8"@.len() == 2);
    assert("F8"@[0] == 'F');
    assert("F8"@[1] == '8');
    assert("F9"@.len() == 2);
    assert("F9"@[0] == 'F');
    assert("F9"@[1] == '9');
    assert("F10"@.len() == 3);
    assert("F10"@[0] == 'F');
    assert("F10"@[1] == '1');
    assert("F10"@[2] == '0');
    assert("F11"@.len() == 3);
    assert("F11"@[0] == 'F');
    assert("F11"@[1] == '1');
    assert("F11"@[2] == '1');
    assert("F12"@.len() == 3);
    assert("F12"@[0] == 'F');
    assert("F12"@[1] == '1');
    assert("F12"@[2] == '2');
    assert("Space"@.len() == 5);
    assert("Space"@[0] == 'S');
    assert("Space"@[1] == 'p');
    assert("Space"@[2] == 'a');
    assert("Space"@[3] == 'c');
    assert("Space"@[4] == 'e');
    assert("Tab"@.len() == 3);
    assert("Tab"@[0] == 'T');
    assert("Tab"@[1] == 'a');
    assert("Tab"@[2] == 'b');
    assert("Escape"@.len() == 6);
    assert("Escape"@[0] == 'E');
    assert("Escape"@[1] == 's');
    assert("Escape"@[2] == 'c');
    assert("Escape"@[3] == 'a');
    assert("Escape"@[4] == 'p');
    assert("Escape"@[5] == 'e');
    assert("Enter"@.len() == 5);
    assert("Enter"@[0] == 'E');
    assert("Enter"@[1] == 'n');
    assert("Enter"@[2] == 't');
    assert("Enter"@[3] == 'e');
    assert("Enter"@[4] == 'r');
    assert("Backspace"@.len() == 9);
    assert("Backspace"@[0] == 'B');
    assert("Backspace"@[1] == 'a');
    assert("Backspace"@[2] == 'c');
    assert("Backspace"@[3] == 'k');
    assert("Backspace"@[4] == 's');
    assert("Backspace"@[5] == 'p');
    assert("Backspace"@[6] == 'a');
    assert("Backspace"@[7] == 'c');
    assert("Backspace"@[8] == 'e');
    assert("ArrowUp"@.len() == 7);
    assert("ArrowUp"@[0] == 'A');
    assert("ArrowUp"@[1] == 'r');
    assert("ArrowUp"@[2] == 'r');
    assert("ArrowUp"@[3] == 'o');
    assert("ArrowUp"@[4] == 'w');
    assert("ArrowUp"@[5] == 'U');
    assert("ArrowUp"@[6] == 'p');
    assert("ArrowDown"@.len() == 9);
    assert("ArrowDown"@[0] == 'A');
    assert("ArrowDown"@[1] == 'r');
    assert("ArrowDown"@[2] == 'r');
    assert("ArrowDown"@[3] == 'o');
    assert("ArrowDown"@[4] == 'w');
    assert("ArrowDown"@[5] == 'D');
    assert("ArrowDown"@[6] == 'o');
    assert("ArrowDown"@[7] == 'w');
    assert("ArrowDown"@[8] == 'n');
    assert("ArrowLeft"@.len() == 9);
    assert("ArrowLeft"@[0] == 'A');
    assert("ArrowLeft"@[1] == 'r');
    assert("ArrowLeft"@[2] == 'r');
    assert("ArrowLeft"@[3] == 'o');
    assert("ArrowLeft"@[4] == 'w');
    assert("ArrowLeft"@[5] == 'L');
    assert("ArrowLeft"@[6] == 'e');
    assert("ArrowLeft"@[7] == 'f');
    assert("ArrowLeft"@[8] == 't');
    assert("ArrowRight"@.len() == 10);
    assert("ArrowRight"@[0] == 'A');
    assert("ArrowRight"@[1] == 'r');
    assert("ArrowRight"@[2] == 'r');
    assert("ArrowRight"@[3] == 'o');
    assert("ArrowRight"@[4] == 'w');
    assert("ArrowRight"@[5] == 'R');
    assert("ArrowRight"@[6] == 'i');
    assert("ArrowRight"@[7] == 'g');
    assert("ArrowRight"@[8] == 'h');
    assert("ArrowRight"@[9] == 't');
    assert("Delete"@.len() == 6);
    assert("Delete"@[0] == 'D');
    assert("Delete"@[1] == 'e');
    assert("Delete"@[2] == 'l');
    assert("Delete"@[3] == 'e');
    assert("Delete"@[4] == 't');
    assert("Delete"@[5] == 'e');
    assert("Insert"@.len() == 6);
    assert("Insert"@[0] == 'I');
    assert("Insert"@[1] == 'n');
    assert("Insert"@[2] == 's');
    assert("Insert"@[3] == 'e');
    assert("Insert"@[4] == 'r');
    assert("Insert"@[5] == 't');
    assert("Home"@.len() == 4);
    assert("Home"@[0] == 'H');
    assert("Home"@[1] == 'o');
    assert("Home"@[2] == 'm');
    assert("Home"@[3] == 'e');
    assert("End"@.len() == 3);
    assert("End"@[0] == 'E');
    assert("End"@[1] == 'n');
    assert("End"@[2] == 'd');
    assert("PageUp"@.len() == 6);
    assert("PageUp"@[0] == 'P');
    assert("PageUp"@[1] == 'a');
    assert("PageUp"@[2] == 'g');
    assert("PageUp"@[3] == 'e');
    assert("PageUp"@[4] == 'U');
    assert("PageUp"@[5] == 'p');
    assert("PageDown"@.len() == 8);
    assert("PageDown"@[0] == 'P');
    assert("PageDown"@[1] == 'a');
    assert("PageDown"@[2] == 'g');
    assert("PageDown"@[3] == 'e');
    assert("PageDown"@[4] == 'D');
    assert("PageDown"@[5] == 'o');
    assert("PageDown"@[6] == 'w');
    assert("PageDown"@[7] == 'n');
    assert("CapsLock"@.len() == 8);
    assert("CapsLock"@[0] == 'C');
    assert("CapsLock"@[1] == 'a');
    assert("CapsLock"@[2] == 'p');
    assert("CapsLock"@[3] == 's');
    assert("CapsLock"@[4] == 'L');
    assert("CapsLock"@[5] == 'o');
    assert("CapsLock"@[6] == 'c');
    assert("CapsLock"@[7] == 'k');
    assert("ScrollLock"@.len() == 10);
    assert("ScrollLock"@[0] == 'S');
    assert("ScrollLock"@[1] == 'c');
    assert("ScrollLock"@[2] == 'r');
    assert("ScrollLock"@[3] == 'o');
    assert("ScrollLock"@[4] == 'l');
    assert("ScrollLock"@[5] == 'l');
    assert("ScrollLock"@[6] == 'L');
    assert("ScrollLock"@[7] == 'o');
    assert("ScrollLock"@[8] == 'c');
    assert("ScrollLock"@[9] == 'k');
    assert("NumLock"@.len() == 7);
    assert("NumLock"@[0] == 'N');
    assert("NumLock"@[1] == 'u');
    assert("NumLock"@[2] == 'm');
    assert("NumLock"@[3] == 'L');
    assert("NumLock"@[4] == 'o');
    assert("NumLock"@[5] == 'c');
    assert("NumLock"@[6] == 'k');
    assert("PrintScreen"@.len() == 11);
    assert("PrintScreen"@[0] == 'P');
    assert("PrintScreen"@[1] == 'r');
    assert("PrintScreen"@[2] == 'i');
    assert("PrintScreen"@[3] == 'n');
    assert("PrintScreen"@[4] == 't');
    assert("PrintScreen"@[5] == 'S');
    assert("PrintScreen"@[6] == 'c');
    assert("PrintScreen"@[7] == 'r');
    assert("PrintScreen"@[8] == 'e');
    assert("PrintScreen"@[9] == 'e');
    assert("PrintScreen"@[10] == 'n');
    assert("Pause"@.len() == 5);
    assert("Pause"@[0] == 'P');
    assert("Pause"@[1] == 'a');
    assert("Pause"@[2] == 'u');
    assert("Pause"@[3] == 's');
    assert("Pause"@[4] == 'e');
    assert("Numpad0"@.len() == 7);
    assert("Numpad0"@[0] == 'N');
    assert("Numpad0"@[1] == 'u');
    assert("Numpad0"@[2] == 'm');
    assert("Numpad0"@[3] == 'p');
    assert("Numpad0"@[4] == 'a');
    assert("Numpad0"@[5] == 'd');
    assert("Numpad0"@[6] == '0');
    assert("Numpad1"@.len() == 7);
    assert("Numpad1"@[0] == 'N');
    assert("Numpad1"@[1] == 'u');
    assert("Numpad1"@[2] == 'm');
    assert("Numpad1"@[3] == 'p');
    assert("Numpad1"@[4] == 'a');
    assert("Numpad1"@[5] == 'd');
    assert("Numpad1"@[6] == '1');
    assert("Numpad2"@.len() == 7);
    assert("Numpad2"@[0] == 'N');
    assert("Numpad2"@[1] == 'u');
    assert("Numpad2"@[2] == 'm');
    assert("Numpad2"@[3] == 'p');
    assert("Numpad2"@[4] == 'a');
    assert("Numpad2"@[5] == 'd');
    assert("Numpad2"@[6] == '2');
    assert("Numpad3"@.len() == 7);
    assert("Numpad3"@[0] == 'N');
    assert("Numpad3"@[1] == 'u');
    assert("Numpad3"@[2] == 'm');
    assert("Numpad3"@[3] == 'p');
    assert("Numpad3"@[4] == 'a');
    assert("Numpad3"@[5] == 'd');
    assert("Numpad3"@[6] == '3');
    assert("Numpad4"@.len() == 7);
    assert("Numpad4"@[0] == 'N');
    assert("Numpad4"@[1] == 'u');
    assert("Numpad4"@[2] == 'm');
    assert("Numpad4"@[3] == 'p');
    assert("Numpad4"@[4] == 'a');
    assert("Numpad4"@[5] == 'd');
    assert("Numpad4"@[6] == '4');
    assert("Numpad5"@.len() == 7);
    assert("Numpad5"@[0] == 'N');
    assert("Numpad5"@[1] == 'u');
    assert("Numpad5"@[2] == 'm');
    assert("Numpad5"@[3] == 'p');
    assert("Numpad5"@[4] == 'a');
    assert("Numpad5"@[5] == 'd');
    assert("Numpad5"@[6] == '5');
    assert("Numpad6"@.len() == 7);
    assert("Numpad6"@[0] == 'N');
    assert("Numpad6"@[1] == 'u');
    assert("Numpad6"@[2] == 'm');
    assert("Numpad6"@[3] == 'p');
    assert("Numpad6"@[4] == 'a');
    assert("Numpad6"@[5] == 'd');
    assert("Numpad6"@[6] == '6');
    assert("Numpad7"@.len() == 7);
    assert("Numpad7"@[0] == 'N');
    assert("Numpad7"@[1] == 'u');
    assert("Numpad7"@[2] == 'm');
    assert("Numpad7"@[3] == 'p');
    assert("Numpad7"@[4] == 'a');
    assert("Numpad7"@[5] == 'd');
    assert("Numpad7"@[6] == '7');
    assert("Numpad8"@.len() == 7);
    assert("Numpad8"@[0] == 'N');
    assert("Numpad8"@[1] == 'u');
    assert("Numpad8"@[2] == 'm');
    assert("Numpad8"@[3] == 'p');
    assert("Numpad8"@[4] == 'a');
    assert("Numpad8"@[5] == 'd');
    assert("Numpad8"@[6] == '8');
    assert("Numpad9"@.len() == 7);
    assert("Numpad9"@[0] == 'N');
    assert("Numpad9"@[1] == 'u');
    assert("Numpad9"@[2] == 'm');
    assert("Numpad9"@[3] == 'p');
    assert("Numpad9"@[4] == 'a');
    assert("Numpad9"@[5] == 'd');
    assert("Numpad9"@[6] == '9');
    assert("NumpadAdd"@.len() == 9);
    assert("NumpadAdd"@[0] == 'N');
    assert("NumpadAdd"@[1] == 'u');
    assert("NumpadAdd"@[2] == 'm');
    assert("NumpadAdd"@[3] == 'p');
    assert("NumpadAdd"@[4] == 'a');
    assert("NumpadAdd"@[5] == 'd');
    assert("NumpadAdd"@[6] == 'A');
    assert("NumpadAdd"@[7] == 'd');
    assert("NumpadAdd"@[8] == 'd');
    assert("NumpadSubtract"@.len() == 14);
    assert("NumpadSubtract"@[0] == 'N');
    assert("NumpadSubtract"@[1] == 'u');
    assert("NumpadSubtract"@[2] == 'm');
    assert("NumpadSubtract"@[3] == 'p');
    assert("NumpadSubtract"@[4] == 'a');
    assert("NumpadSubtract"@[5] == 'd');
    assert("NumpadSubtract"@[6] == 'S');
    assert("NumpadSubtract"@[7] == 'u');
    assert("NumpadSubtract"@[8] == 'b');
    assert("NumpadSubtract"@[9] == 't');
    assert("NumpadSubtract"@[10] == 'r');
    assert("NumpadSubtract"@[11] == 'a');
    assert("NumpadSubtract"@[12] == 'c');
    assert("NumpadSubtract"@[13] == 't');
    assert("NumpadMultiply"@.len() == 14);
    assert("NumpadMultiply"@[0] == 'N');
    assert("NumpadMultiply"@[1] == 'u');
    assert("NumpadMultiply"@[2] == 'm');
    assert("NumpadMultiply"@[3] == 'p');
    assert("NumpadMultiply"@[4] == 'a');
    assert("NumpadMultiply"@[5] == 'd');
    assert("NumpadMultiply"@[6] == 'M');
    assert("NumpadMultiply"@[7] == 'u');
    assert("NumpadMultiply"@[8] == 'l');
    assert("NumpadMultiply"@[9] == 't');
    assert("NumpadMultiply"@[10] == 'i');
    assert("NumpadMultiply"@[11] == 'p');
    assert("NumpadMultiply"@[12] == 'l');
    assert("NumpadMultiply"@[13] == 'y');
    assert("NumpadDivide"@.len() == 12);
    assert("NumpadDivide"@[0] == 'N');
    assert("NumpadDivide"@[1] == 'u');
    assert("NumpadDivide"@[2] == 'm');
    assert("NumpadDivide"@[3] == 'p');
    assert("NumpadDivide"@[4] == 'a');
    assert("NumpadDivide"@[5] == 'd');
    assert("NumpadDivide"@[6] == 'D');
    assert("NumpadDivide"@[7] == 'i');
    assert("NumpadDivide"@[8] == 'v');
    assert("NumpadDivide"@[9] == 'i');
    assert("NumpadDivide"@[10] == 'd');
    assert("NumpadDivide"@[11] == 'e');
    assert("NumpadDecimal"@.len() == 13);
    assert("NumpadDecimal"@[0] == 'N');
    assert("NumpadDecimal"@[1] == 'u');
    assert("NumpadDecimal"@[2] == 'm');
    assert("NumpadDecimal"@[3] == 'p');
    assert("NumpadDecimal"@[4] == 'a');
    assert("NumpadDecimal"@[5] == 'd');
    assert("NumpadDecimal"@[6] == 'D');
    assert("NumpadDecimal"@[7] == 'e');
    assert("NumpadDecimal"@[8] == 'c');
    assert("NumpadDecimal"@[9] == 'i');
    assert("NumpadDecimal"@[10] == 'm');
    assert("NumpadDecimal"@[11] == 'a');
    assert("NumpadDecimal"@[12] == 'l');
    assert("NumpadEnter"@.len() == 11);
    assert("NumpadEnter"@[0] == 'N');
    assert("NumpadEnter"@[1] == 'u');
    assert("NumpadEnter"@[2] == 'm');
    assert("NumpadEnter"@[3] == 'p');
    assert("NumpadEnter"@[4] == 'a');
    assert("NumpadEnter"@[5] == 'd');
    assert("NumpadEnter"@[6] == 'E');
    assert("NumpadEnter"@[7] == 'n');
    assert("NumpadEnter"@[8] == 't');
    assert("NumpadEnter"@[9] == 'e');
    assert("NumpadEnter"@[10] == 'r');
    assert("NumpadEqual"@.len() == 11);
    assert("NumpadEqual"@[0] == 'N');
    assert("NumpadEqual"@[1] == 'u');
    assert("NumpadEqual"@[2] == 'm');
    assert("NumpadEqual"@[3] == 'p');
    assert("NumpadEqual"@[4] == 'a');
    assert("NumpadEqual"@[5] == 'd');
    assert("NumpadEqual"@[6] == 'E');
    assert("NumpadEqual"@[7] == 'q');
    assert("NumpadEqual"@[8] == 'u');
    assert("NumpadEqual"@[9] == 'a');
    assert("NumpadEqual"@[10] == 'l');
    assert("Semicolon"@.len() == 9);
    assert("Semicolon"@[0] == 'S');
    assert("Semicolon"@[1] == 'e');
    assert("Semicolon"@[2] == 'm');
    assert("Semicolon"@[3] == 'i');
    assert("Semicolon"@[4] == 'c');
    assert("Semicolon"@[5] == 'o');
    assert("Semicolon"@[6] == 'l');
    assert("Semicolon"@[7] == 'o');
    assert("Semicolon"@[8] == 'n');
    assert("Equal"@.len() == 5);
    assert("Equal"@[0] == 'E');
    assert("Equal"@[1] == 'q');
    assert("Equal"@[2] == 'u');
    assert("Equal"@[3] == 'a');
    assert("Equal"@[4] == 'l');
    assert("Comma"@.len() == 5);
    assert("Comma"@[0] == 'C');
    assert("Comma"@[1] == 'o');
    assert("Comma"@[2] == 'm');
    assert("Comma"@[3] == 'm');
    assert("Comma"@[4] == 'a');
    assert("Minus"@.len() == 5);
    assert("Minus"@[0] == 'M');
    assert("Minus"@[1] == 'i');
    assert("Minus"@[2] == 'n');
    assert("Minus"@[3] == 'u');
    assert("Minus"@[4] == 's');
    assert("Period"@.len() == 6);
    assert("Period"@[0] == 'P');
    assert("Period"@[1] == 'e');
    assert("Period"@[2] == 'r');
    assert("Period"@[3] == 'i');
    assert("Period"@[4] == 'o');
    assert("Period"@[5] == 'd');
    assert("Slash"@.len() == 5);
    assert("Slash"@[0] == 'S');
    assert("Slash"@[1] == 'l');
    assert("Slash"@[2] == 'a');
    assert("Slash"@[3] == 's');
    assert("Slash"@[4] == 'h');
    assert("Backquote"@.len() == 9);
    assert("Backquote"@[0] == 'B');
    assert("Backquote"@[1] == 'a');
    assert("Backquote"@[2] == 'c');
    assert("Backquote"@[3] == 'k');
    assert("Backquote"@[4] == 'q');
    assert("Backquote"@[5] == 'u');
    assert("Backquote"@[6] == 'o');
    assert("Backquote"@[7] == 't');
    assert("Backquote"@[8] == 'e');
    assert("BracketLeft"@.len() == 11);
    assert("BracketLeft"@[0] == 'B');
    assert("BracketLeft"@[1] == 'r');
    assert("BracketLeft"@[2] == 'a');
    assert("BracketLeft"@[3] == 'c');
    assert("BracketLeft"@[4] == 'k');
    assert("BracketLeft"@[5] == 'e');
    assert("BracketLeft"@[6] == 't');
    assert("BracketLeft"@[7] == 'L');
    assert("BracketLeft"@[8] == 'e');
    assert("BracketLeft"@[9] == 'f');
    assert("BracketLeft"@[10] == 't');
    assert("Backslash"@.len() == 9);
    assert("Backslash"@[0] == 'B');
    assert("Backslash"@[1] == 'a');
    assert("Backslash"@[2] == 'c');
    assert("Backslash"@[3] == 'k');
    assert("Backslash"@[4] == 's');
    assert("Backslash"@[5] == 'l');
    assert("Backslash"@[6] == 'a');
    assert("Backslash"@[7] == 's');
    assert("Backslash"@[8] == 'h');
    assert("BracketRight"@.len() == 12);
    assert("BracketRight"@[0] == 'B');
    assert("BracketRight"@[1] == 'r');
    assert("BracketRight"@[2] == 'a');
    assert("BracketRight"@[3] == 'c');
    assert("BracketRight"@[4] == 'k');
    assert("BracketRight"@[5] == 'e');
    assert("BracketRight"@[6] == 't');
    assert("BracketRight"@[7] == 'R');
    assert("BracketRight"@[8] == 'i');
    assert("BracketRight"@[9] == 'g');
    assert("BracketRight"@[10] == 'h');
    assert("BracketRight"@[11] == 't');
    assert("Quote"@.len() == 5);
    assert("Quote"@[0] == 'Q');
    assert("Quote"@[1] == 'u');
    assert("Quote"@[2] == 'o');
    assert("Quote"@[3] == 't');
    assert("Quote"@[4] == 'e');
    match c {
        KeyCode::KeyA => assert(key_code_of(spec_key_name(c)) == Some(KeyCode::KeyA)),
        KeyCode::KeyB => assert(key_code_of(spec_key_name(c)) == Some(KeyCode::KeyB)),
        KeyCode::KeyC => assert(key_code_of(spec_key_name(c)) == Some(KeyCode::KeyC)),
        KeyCode::KeyD => assert(key_code_of(spec_key_name(c)) == Some(KeyCode::KeyD)),
        KeyCode::KeyE => assert(key_code_of(spec_key_name(c)) == Some(KeyCode::KeyE)),
        KeyCode::KeyF => assert(key_code_of(spec_key_name(c)) == Some(KeyCode::KeyF)),
        KeyCode::KeyG => assert(key_code_of(spec_key_name(c)) == Some(KeyCode::KeyG)),
        KeyCode::KeyH => assert(key_code_of(spec_key_name(c)) == Some(KeyCode::KeyH)),
        KeyCode::KeyI => assert(key_code_of(spec_key_name(c)) == Some(KeyCode::KeyI)),
        KeyCode::KeyJ => assert(key_code_of(spec_key_name(c)) == Some(KeyCode::KeyJ)),
        KeyCode::KeyK => assert(key_code_of(spec_key_name(c)) == Some(KeyCode::KeyK)),
        KeyCode::KeyL => assert(key_code_of(spec_key_name(c)) == Some(KeyCode::KeyL)),
        KeyCode::KeyM => assert(key_code_of(spec_key_name(c)) == Some(KeyCode::KeyM)),
        KeyCode::KeyN => assert(key_code_of(spec_key_name(c)) == Some(KeyCode::KeyN)),
        KeyCode::KeyO => assert(key_code_of(spec_key_name(c)) == Some(KeyCode::KeyO)),
        KeyCode::KeyP => assert(key_code_of(spec_key_name(c)) == Some(KeyCode::KeyP)),
        KeyCode::KeyQ => assert(key_code_of(spec_key_name(c)) == Some(KeyCode::KeyQ)),
        KeyCode::KeyR => assert(key_code_of(spec_key_name(c)) == Some(KeyCode::KeyR)),
        KeyCode::KeyS => assert(key_code_of(spec_key_name(c)) == Some(KeyCode::KeyS)),
        KeyCode::KeyT => assert(key_code_of(spec_key_name(c)) == Some(KeyCode::KeyT)),
        KeyCode::KeyU => assert(key_code_of(spec_key_name(c)) == Some(KeyCode::KeyU)),
        KeyCode::KeyV => assert(key_code_of(spec_key_name(c)) == Some(KeyCode::KeyV)),
        KeyCode::KeyW => assert(key_code_of(spec_key_name(c)) == Some(KeyCode::KeyW)),
        KeyCode::KeyX => assert(key_code_of(spec_key_name(c)) == Some(KeyCode::KeyX)),
        KeyCode::KeyY => assert(key_code_of(spec_key_name(c)) == Some(KeyCode::KeyY)),
        KeyCode::KeyZ => assert(key_code_of(spec_key_name(c)) == Some(KeyCode::KeyZ)),
        KeyCode::Digit0 => assert(key_code_of(spec_key_name(c)) == Some(KeyCode::Digit0)),
        KeyCode::Digit1 => assert(key_code_of(spec_key_name(c)) == Some(KeyCode::Digit1)),
        KeyCode::Digit2 => assert(key_code_of(spec_key_name(c)) == Some(KeyCode::Digit2)),
        KeyCode::Digit3 => assert(key_code_of(spec_key_name(c)) == Some(KeyCode::Digit3)),
        KeyCode::Digit4 => assert(key_code_of(spec_key_name(c)) == Some(KeyCode::Digit4)),
        KeyCode::Digit5 => assert(key_code_of(spec_key_name(c)) == Some(KeyCode::Digit5)),
        KeyCode::Digit6 => assert(key_code_of(spec_key_name(c)) == Some(KeyCode::Digit6)),
        KeyCode::Digit7 => assert(key_code_of(spec_key_name(c)) == Some(KeyCode::Digit7)),
        KeyCode::Digit8 => assert(key_code_of(spec_key_name(c)) == Some(KeyCode::Digit8)),
        KeyCode::Digit9 => assert(key_code_of(spec_key_name(c)) == Some(KeyCode::Digit9)),
        KeyCode::F1 => assert(key_code_of(spec_key_name(c)) == Some(KeyCode::F1)),
        KeyCode::F2 => assert(key_code_of(spec_key_name(c)) == Some(KeyCode::F2)),
        KeyCode::F3 => assert(key_code_of(spec_key_name(c)) == Some(KeyCode::F3)),
        KeyCode::F4 => assert(key_code_of(spec_key_name(c)) == Some(KeyCode::F4)),
        KeyCode::F5 => assert(key_code_of(spec_key_name(c)) == Some(KeyCode::F5)),
        KeyCode::F6 => assert(key_code_of(spec_key_name(c)) == Some(KeyCode::F6)),
        KeyCode::F7 => assert(key_code_of(spec_key_name(c)) == Some(KeyCode::F7)),
        KeyCode::F8 => assert(key_code_of(spec_key_name(c)) == Some(KeyCode::F8)),
        KeyCode::F9 => assert(key_code_of(spec_key_name(c)) == Some(KeyCode::F9)),
        KeyCode::F10 => assert(key_code_of(spec_key_name(c)) == Some(KeyCode::F10)),
        KeyCode::F11 => assert(key_code_of(spec_key_name(c)) == Some(KeyCode::F11)),
        KeyCode::F12 => assert(key_code_of(spec_key_name(c)) == Some(KeyCode::F12)),
        KeyCode::Space => assert(key_code_of(spec_key_name(c)) == Some(KeyCode::Space)),
        KeyCode::Tab => assert(key_code_of(spec_key_name(c)) == Some(KeyCode::Tab)),
        KeyCode::Escape => assert(key_code_of(spec_key_name(c)) == Some(KeyCode::Escape)),
        KeyCode::Enter => assert(key_code_of(spec_key_name(c)) == Some(KeyCode::Enter)),
        KeyCode::Backspace => assert(key_code_of(spec_key_name(c)) == Some(KeyCode::Backspace)),
        KeyCode::ArrowUp => assert(key_code_of(spec_key_name(c)) == Some(KeyCode::ArrowUp)),
        KeyCode::ArrowDown => assert(key_code_of(spec_key_name(c)) == Some(KeyCode::ArrowDown)),
        KeyCode::ArrowLeft => assert(key_code_of(spec_key_name(c)) == Some(KeyCode::ArrowLeft)),
        KeyCode::ArrowRight => assert(key_code_of(spec_key_name(c)) == Some(KeyCode::ArrowRight)),
        KeyCode::Delete => assert(key_code_of(spec_key_name(c)) == Some(KeyCode::Delete)),
        KeyCode::Insert => assert(key_code_of(spec_key_name(c)) == Some(KeyCode::Insert)),
        KeyCode::Home => assert(key_code_of(spec_key_name(c)) == Some(KeyCode::Home)),
        KeyCode::End => assert(key_code_of(spec_key_name(c)) == Some(KeyCode::End)),
        KeyCode::PageUp => assert(key_code_of(spec_key_name(c)) == Some(KeyCode::PageUp)),
        KeyCode::PageDown => assert(key_code_of(spec_key_name(c)) == Some(KeyCode::PageDown)),
        KeyCode::CapsLock => assert(key_code_of(spec_key_name(c)) == Some(KeyCode::CapsLock)),
        KeyCode::ScrollLock => assert(key_code_of(spec_key_name(c)) == Some(KeyCode::ScrollLock)),
        KeyCode::NumLock => assert(key_code_of(spec_key_name(c)) == Some(KeyCode::NumLock)),
        KeyCode::PrintScreen => assert(key_code_of(spec_key_name(c)) == Some(KeyCode::PrintScreen)),
        KeyCode::Pause => assert(key_code_of(spec_key_name(c)) == Some(KeyCode::Pause)),
        KeyCode::Numpad0 => assert(key_code_of(spec_key_name(c)) == Some(KeyCode::Numpad0)),
        KeyCode::Numpad1 => assert(key_code_of(spec_key_name(c)) == Some(KeyCode::Numpad1)),
        KeyCode::Numpad2 => assert(key_code_of(spec_key_name(c)) == Some(KeyCode::Numpad2)),
        KeyCode::Numpad3 => assert(key_code_of(spec_key_name(c)) == Some(KeyCode::Numpad3)),
        KeyCode::Numpad4 => assert(key_code_of(spec_key_name(c)) == Some(KeyCode::Numpad4)),
        KeyCode::Numpad5 => assert(key_code_of(spec_key_name(c)) == Some(KeyCode::Numpad5)),
        KeyCode::Numpad6 => assert(key_code_of(spec_key_name(c)) == Some(KeyCode::Numpad6)),
        KeyCode::Numpad7 => assert(key_code_of(spec_key_name(c)) == Some(KeyCode::Numpad7)),
        KeyCode::Numpad8 => assert(key_code_of(spec_key_name(c)) == Some(KeyCode::Numpad8)),
        KeyCode::Numpad9 => assert(key_code_of(spec_key_name(c)) == Some(KeyCode::Numpad9)),
        KeyCode::NumpadAdd => assert(key_code_of(spec_key_name(c)) == Some(KeyCode::NumpadAdd)),
        KeyCode::NumpadSubtract => assert(key_code_of(spec_key_name(c)) == Some(KeyCode::NumpadSubtract)),
        KeyCode::NumpadMultiply => assert(key_code_of(spec_key_name(c)) == Some(KeyCode::NumpadMultiply)),
        KeyCode::NumpadDivide => assert(key_code_of(spec_key_name(c)) == Some(KeyCode::NumpadDivide)),
        KeyCode::NumpadDecimal => assert(key_code_of(spec_key_name(c)) == Some(KeyCode::NumpadDecimal)),
        KeyCode::NumpadEnter => assert(key_code_of(spec_key_name(c)) == Some(KeyCode::NumpadEnter)),
        KeyCode::NumpadEqual => assert(key_code_of(spec_key_name(c)) == Some(KeyCode::NumpadEqual)),
        KeyCode::Semicolon => assert(key_code_of(spec_key_name(c)) == Some(KeyCode::Semicolon)),
        KeyCode::Equal => assert(key_code_of(spec_key_name(c)) == Some(KeyCode::Equal)),
        KeyCode::Comma => assert(key_code_of(spec_key_name(c)) == Some(KeyCode::Comma)),
        KeyCode::Minus => assert(key_code_of(spec_key_name(c)) == Some(KeyCode::Minus)),
        KeyCode::Period => assert(key_code_of(spec_key_name(c)) == Some(KeyCode::Period)),
        KeyCode::Slash => assert(key_code_of(spec_key_name(c)) == Some(KeyCode::Slash)),
        KeyCode::Backquote => assert(key_code_of(spec_key_name(c)) == Some(KeyCode::Backquote)),
        KeyCode::BracketLeft => assert(key_code_of(spec_key_name(c)) == Some(KeyCode::BracketLeft)),
        KeyCode::Backslash => assert(key_code_of(spec_key_name(c)) == Some(KeyCode::Backslash)),
        KeyCode::BracketRight => assert(key_code_of(spec_key_name(c)) == Some(KeyCode::BracketRight)),
        KeyCode::Quote => assert(key_code_of(spec_key_name(c)) == Some(KeyCode::Quote)),
    }
}

/// Renders the modifier set for display: canonical names joined with
/// `+`, or `none` when the set is empty.
pub fn format_modifiers(m: Modifiers) -> (r: String)
    ensures
        r@ == mods_string(m),
{
    proof {
        reveal_strlit("none");
        reveal_strlit("+");
        reveal_strlit("ctrl");
        reveal_strlit("shift");
        reveal_strlit("alt");
        reveal_strlit("meta");
        reveal_strlit("ctrl+shift+alt+meta");
        reveal_strlit("ctrl+shift+alt");
        reveal_strlit("ctrl+shift+meta");
        reveal_strlit("ctrl+shift");
        reveal_strlit("ctrl+alt+meta");
        reveal_strlit("ctrl+alt");
        reveal_strlit("ctrl+meta");
        reveal_strlit("shift+alt+meta");
        reveal_strlit("shift+alt");
        reveal_strlit("shift+meta");
        reveal_strlit("alt+meta");
    }
    if m.ctrl && m.shift && m.alt && m.meta {
        proof {
            assert(mod_names_seq(m) =~= seq!["ctrl"@, "shift"@, "alt"@, "meta"@]);
            assert(joined_names(seq!["meta"@]) == "meta"@);
            assert(seq!["alt"@, "meta"@].drop_first() =~= seq!["meta"@]);
            assert(joined_names(seq!["alt"@, "meta"@]) == "alt"@ + "+"@ + joined_names(seq!["meta"@]));
            assert(seq!["shift"@, "alt"@, "meta"@].drop_first() =~= seq!["alt"@, "meta"@]);
            assert(joined_names(seq!["shift"@, "alt"@, "meta"@]) == "shift"@ + "+"@ + joined_names(seq!["alt"@, "meta"@]));
            assert(seq!["ctrl"@, "shift"@, "alt"@, "meta"@].drop_first() =~= seq!["shift"@, "alt"@, "meta"@]);
            assert(joined_names(seq!["ctrl"@, "shift"@, "alt"@, "meta"@]) == "ctrl"@ + "+"@ + joined_names(seq!["shift"@, "alt"@, "meta"@]));
            assert("ctrl+shift+alt+meta"@ =~= joined_names(seq!["ctrl"@, "shift"@, "alt"@, "meta"@]));
        }
        String::from_str("ctrl+shift+alt+meta")
    } else if m.ctrl && m.shift && m.alt && !m.meta {
        proof {
            assert(mod_names_seq(m) =~= seq!["ctrl"@, "shift"@, "alt"@]);
            assert(joined_names(seq!["alt"@]) == "alt"@);
            assert(seq!["shift"@, "alt"@].drop_first() =~= seq!["alt"@]);
            assert(joined_names(seq!["shift"@, "alt"@]) == "shift"@ + "+"@ + joined_names(seq!["alt"@]));
            assert(seq!["ctrl"@, "shift"@, "alt"@].drop_first() =~= seq!["shift"@, "alt"@]);
            assert(joined_names(seq!["ctrl"@, "shift"@, "alt"@]) == "ctrl"@ + "+"@ + joined_names(seq!["shift"@, "alt"@]));
            assert("ctrl+shift+alt"@ =~= joined_names(seq!["ctrl"@, "shift"@, "alt"@]));
        }
        String::from_str("ctrl+shift+alt")
    } else if m.ctrl && m.shift && !m.alt && m.meta {
        proof {
            assert(mod_names_seq(m) =~= seq!["ctrl"@, "shift"@, "meta"@]);
            assert(joined_names(seq!["meta"@]) == "meta"@);
            assert(seq!["shift"@, "meta"@].drop_first() =~= seq!["meta"@]);
            assert(joined_names(seq!["shift"@, "meta"@]) == "shift"@ + "+"@ + joined_names(seq!["meta"@]));
            assert(seq!["ctrl"@, "shift"@, "meta"@].drop_first() =~= seq!["shift"@, "meta"@]);
            assert(joined_names(seq!["ctrl"@, "shift"@, "meta"@]) == "ctrl"@ + "+"@ + joined_names(seq!["shift"@, "meta"@]));
            assert("ctrl+shift+meta"@ =~= joined_names(seq!["ctrl"@, "shift"@, "meta"@]));
        }
        String::from_str("ctrl+shift+meta")
    } else if m.ctrl && m.shift && !m.alt && !m.meta {
        proof {
            assert(mod_names_seq(m) =~= seq!["ctrl"@, "shift"@]);
            assert(joined_names(seq!["shift"@]) == "shift"@);
            assert(seq!["ctrl"@, "shift"@].drop_first() =~= seq!["shift"@]);
            assert(joined_names(seq!["ctrl"@, "shift"@]) == "ctrl"@ + "+"@ + joined_names(seq!["shift"@]));
            assert("ctrl+shift"@ =~= joined_names(seq!["ctrl"@, "shift"@]));
        }
        String::from_str("ctrl+shift")
    } else if m.ctrl && !m.shift && m.alt && m.meta {
        proof {
            assert(mod_names_seq(m) =~= seq!["ctrl"@, "alt"@, "meta"@]);
            assert(joined_names(seq!["meta"@]) == "meta"@);
            assert(seq!["alt"@, "meta"@].drop_first() =~= seq!["meta"@]);
            assert(joined_names(seq!["alt"@, "meta"@]) == "alt"@ + "+"@ + joined_names(seq!["meta"@]));
            assert(seq!["ctrl"@, "alt"@, "meta"@].drop_first() =~= seq!["alt"@, "meta"@]);
            assert(joined_names(seq!["ctrl"@, "alt"@, "meta"@]) == "ctrl"@ + "+"@ + joined_names(seq!["alt"@, "meta"@]));
            assert("ctrl+alt+meta"@ =~= joined_names(seq!["ctrl"@, "alt"@, "meta"@]));
        }
        String::from_str("ctrl+alt+meta")
    } else if m.ctrl && !m.shift && m.alt && !m.meta {
        proof {
            assert(mod_names_seq(m) =~= seq!["ctrl"@, "alt"@]);
            assert(joined_names(seq!["alt"@]) == "alt"@);
            assert(seq!["ctrl"@, "alt"@].drop_first() =~= seq!["alt"@]);
            assert(joined_names(seq!["ctrl"@, "alt"@]) == "ctrl"@ + "+"@ + joined_names(seq!["alt"@]));
            assert("ctrl+alt"@ =~= joined_names(seq!["ctrl"@, "alt"@]));
        }
        String::from_str("ctrl+alt")
    } else if m.ctrl && !m.shift && !m.alt && m.meta {
        proof {
            assert(mod_names_seq(m) =~= seq!["ctrl"@, "meta"@]);
            assert(joined_names(seq!["meta"@]) == "meta"@);
            assert(seq!["ctrl"@, "meta"@].drop_first() =~= seq!["meta"@]);
            assert(joined_names(seq!["ctrl"@, "meta"@]) == "ctrl"@ + "+"@ + joined_names(seq!["meta"@]));
            assert("ctrl+meta"@ =~= joined_names(seq!["ctrl"@, "meta"@]));
        }
        String::from_str("ctrl+meta")
    } else if m.ctrl && !m.shift && !m.alt && !m.meta {
        proof {
            assert(mod_names_seq(m) =~= seq!["ctrl"@]);
            assert(joined_names(seq!["ctrl"@]) == "ctrl"@);
            assert("ctrl"@ =~= joined_names(seq!["ctrl"@]));
        }
        String::from_str("ctrl")
    } else if !m.ctrl && m.shift && m.alt && m.meta {
        proof {
            assert(mod_names_seq(m) =~= seq!["shift"@, "alt"@, "meta"@]);
            assert(joined_names(seq!["meta"@]) == "meta"@);
            assert(seq!["alt"@, "meta"@].drop_first() =~= seq!["meta"@]);
            assert(joined_names(seq!["alt"@, "meta"@]) == "alt"@ + "+"@ + joined_names(seq!["meta"@]));
            assert(seq!["shift"@, "alt"@, "meta"@].drop_first() =~= seq!["alt"@, "meta"@]);
            assert(joined_names(seq!["shift"@, "alt"@, "meta"@]) == "shift"@ + "+"@ + joined_names(seq!["alt"@, "meta"@]));
            assert("shift+alt+meta"@ =~= joined_names(seq!["shift"@, "alt"@, "meta"@]));
        }
        String::from_str("shift+alt+meta")
    } else if !m.ctrl && m.shift && m.alt && !m.meta {
        proof {
            assert(mod_names_seq(m) =~= seq!["shift"@, "alt"@]);
            assert(joined_names(seq!["alt"@]) == "alt"@);
            assert(seq!["shift"@, "alt"@].drop_first() =~= seq!["alt"@]);
            assert(joined_names(seq!["shift"@, "alt"@]) == "shift"@ + "+"@ + joined_names(seq!["alt"@]));
            assert("shift+alt"@ =~= joined_names(seq!["shift"@, "alt"@]));
        }
        String::from_str("shift+alt")
    } else if !m.ctrl && m.shift && !m.alt && m.meta {
        proof {
            assert(mod_names_seq(m) =~= seq!["shift"@, "meta"@]);
            assert(joined_names(seq!["meta"@]) == "meta"@);
            assert(seq!["shift"@, "meta"@].drop_first() =~= seq!["meta"@]);
            assert(joined_names(seq!["shift"@, "meta"@]) == "shift"@ + "+"@ + joined_names(seq!["meta"@]));
            assert("shift+meta"@ =~= joined_names(seq!["shift"@, "meta"@]));
        }
        String::from_str("shift+meta")
    } else if !m.ctrl && m.shift && !m.alt && !m.meta {
        proof {
            assert(mod_names_seq(m) =~= seq!["shift"@]);
            assert(joined_names(seq!["shift"@]) == "shift"@);
            assert("shift"@ =~= joined_names(seq!["shift"@]));
        }
        String::from_str("shift")
    } else if !m.ctrl && !m.shift && m.alt && m.meta {
        proof {
            assert(mod_names_seq(m) =~= seq!["alt"@, "meta"@]);
            assert(joined_names(seq!["meta"@]) == "meta"@);
            assert(seq!["alt"@, "meta"@].drop_first() =~= seq!["meta"@]);
            assert(joined_names(seq!["alt"@, "meta"@]) == "alt"@ + "+"@ + joined_names(seq!["meta"@]));
            assert("alt+meta"@ =~= joined_names(seq!["alt"@, "meta"@]));
        }
        String::from_str("alt+meta")
    } else if !m.ctrl && !m.shift && m.alt && !m.meta {
        proof {
            assert(mod_names_seq(m) =~= seq!["alt"@]);
            assert(joined_names(seq!["alt"@]) == "alt"@);
            assert("alt"@ =~= joined_names(seq!["alt"@]));
        }
        String::from_str("alt")
    } else if !m.ctrl && !m.shift && !m.alt && m.meta {
        proof {
            assert(mod_names_seq(m) =~= seq!["meta"@]);
            assert(joined_names(seq!["meta"@]) == "meta"@);
            assert("meta"@ =~= joined_names(seq!["meta"@]));
        }
        String::from_str("meta")
    } else if !m.ctrl && !m.shift && !m.alt && !m.meta {
        String::from_str("none")
    } else {
        String::from_str("none")
    }
}

/// Folding the canonical name list of a modifier set reproduces the
/// set, whatever it is.
pub proof fn lemma_apply_canonical_names(m: Modifiers)
    ensures
        spec_apply_modifiers(no_mods(), mod_names_seq(m)) == Ok::<Modifiers, nat>(m),
{
    reveal_strlit("ctrl");
    reveal_strlit("shift");
    reveal_strlit("alt");
    reveal_strlit("meta");
    assert("ctrl"@.len() == 4);
    assert("shift"@.len() == 5);
    assert("alt"@.len() == 3);
    assert("meta"@.len() == 4);
    assert("ctrl"@[0] == 'c');
    assert("meta"@[0] == 'm');
    if m.ctrl && m.shift && m.alt && m.meta {
        assert(mod_names_seq(m) =~= seq!["ctrl"@, "shift"@, "alt"@, "meta"@]);
        assert(seq!["ctrl"@, "shift"@, "alt"@, "meta"@].drop_first() =~= seq!["shift"@, "alt"@, "meta"@]);
        assert(seq!["shift"@, "alt"@, "meta"@].drop_first() =~= seq!["alt"@, "meta"@]);
        assert(seq!["alt"@, "meta"@].drop_first() =~= seq!["meta"@]);
        assert(seq!["meta"@].drop_first() =~= Seq::<Seq<char>>::empty());
        assert(spec_apply_modifiers(Modifiers { ctrl: true, shift: true, alt: true, meta: true }, Seq::<Seq<char>>::empty()) == Ok::<Modifiers, nat>(Modifiers { ctrl: true, shift: true, alt: true, meta: true }));
        assert(spec_apply_modifiers(Modifiers { ctrl: true, shift: true, alt: true, meta: false }, seq!["meta"@]) == Ok::<Modifiers, nat>(Modifiers { ctrl: true, shift: true, alt: true, meta: true }));
        assert(spec_apply_modifiers(Modifiers { ctrl: true, shift: true, alt: false, meta: false }, seq!["alt"@, "meta"@]) == Ok::<Modifiers, nat>(Modifiers { ctrl: true, shift: true, alt: true, meta: true }));
        assert(spec_apply_modifiers(Modifiers { ctrl: true, shift: false, alt: false, meta: false }, seq!["shift"@, "alt"@, "meta"@]) == Ok::<Modifiers, nat>(Modifiers { ctrl: true, shift: true, alt: true, meta: true }));
        assert(spec_apply_modifiers(Modifiers { ctrl: false, shift: false, alt: false, meta: false }, seq!["ctrl"@, "shift"@, "alt"@, "meta"@]) == Ok::<Modifiers, nat>(Modifiers { ctrl: true, shift: true, alt: true, meta: true }));
    } else if m.ctrl && m.shift && m.alt && !m.meta {
        assert(mod_names_seq(m) =~= seq!["ctrl"@, "shift"@, "alt"@]);
        assert(seq!["ctrl"@, "shift"@, "alt"@].drop_first() =~= seq!["shift"@, "alt"@]);
        assert(seq!["shift"@, "alt"@].drop_first() =~= seq!["alt"@]);
        assert(seq!["alt"@].drop_first() =~= Seq::<Seq<char>>::empty());
        assert(spec_apply_modifiers(Modifiers { ctrl: true, shift: true, alt: true, meta: false }, Seq::<Seq<char>>::empty()) == Ok::<Modifiers, nat>(Modifiers { ctrl: true, shift: true, alt: true, meta: false }));
        assert(spec_apply_modifiers(Modifiers { ctrl: true, shift: true, alt: false, meta: false }, seq!["alt"@]) == Ok::<Modifiers, nat>(Modifiers { ctrl: true, shift: true, alt: true, meta: false }));
        assert(spec_apply_modifiers(Modifiers { ctrl: true, shift: false, alt: false, meta: false }, seq!["shift"@, "alt"@]) == Ok::<Modifiers, nat>(Modifiers { ctrl: true, shift: true, alt: true, meta: false }));
        assert(spec_apply_modifiers(Modifiers { ctrl: false, shift: false, alt: false, meta: false }, seq!["ctrl"@, "shift"@, "alt"@]) == Ok::<Modifiers, nat>(Modifiers { ctrl: true, shift: true, alt: true, meta: false }));
    } else if m.ctrl && m.shift && !m.alt && m.meta {
        assert(mod_names_seq(m) =~= seq!["ctrl"@, "shift"@, "meta"@]);
        assert(seq!["ctrl"@, "shift"@, "meta"@].drop_first() =~= seq!["shift"@, "meta"@]);
        assert(seq!["shift"@, "meta"@].drop_first() =~= seq!["meta"@]);
        assert(seq!["meta"@].drop_first() =~= Seq::<Seq<char>>::empty());
        assert(spec_apply_modifiers(Modifiers { ctrl: true, shift: true, alt: false, meta: true }, Seq::<Seq<char>>::empty()) == Ok::<Modifiers, nat>(Modifiers { ctrl: true, shift: true, alt: false, meta: true }));
        assert(spec_apply_modifiers(Modifiers { ctrl: true, shift: true, alt: false, meta: false }, seq!["meta"@]) == Ok::<Modifiers, nat>(Modifiers { ctrl: true, shift: true, alt: false, meta: true }));
        assert(spec_apply_modifiers(Modifiers { ctrl: true, shift: false, alt: false, meta: false }, seq!["shift"@, "meta"@]) == Ok::<Modifiers, nat>(Modifiers { ctrl: true, shift: true, alt: false, meta: true }));
        assert(spec_apply_modifiers(Modifiers { ctrl: false, shift: false, alt: false, meta: false }, seq!["ctrl"@, "shift"@, "meta"@]) == Ok::<Modifiers, nat>(Modifiers { ctrl: true, shift: true, alt: false, meta: true }));
    } else if m.ctrl && m.shift && !m.alt && !m.meta {
        assert(mod_names_seq(m) =~= seq!["ctrl"@, "shift"@]);
        assert(seq!["ctrl"@, "shift"@].drop_first() =~= seq!["shift"@]);
        assert(seq!["shift"@].drop_first() =~= Seq::<Seq<char>>::empty());
        assert(spec_apply_modifiers(Modifiers { ctrl: true, shift: true, alt: false, meta: false }, Seq::<Seq<char>>::empty()) == Ok::<Modifiers, nat>(Modifiers { ctrl: true, shift: true, alt: false, meta: false }));
        assert(spec_apply_modifiers(Modifiers { ctrl: true, shift: false, alt: false, meta: false }, seq!["shift"@]) == Ok::<Modifiers, nat>(Modifiers { ctrl: true, shift: true, alt: false, meta: false }));
        assert(spec_apply_modifiers(Modifiers { ctrl: false, shift: false, alt: false, meta: false }, seq!["ctrl"@, "shift"@]) == Ok::<Modifiers, nat>(Modifiers { ctrl: true, shift: true, alt: false, meta: false }));
    } else if m.ctrl && !m.shift && m.alt && m.meta {
        assert(mod_names_seq(m) =~= seq!["ctrl"@, "alt"@, "meta"@]);
        assert(seq!["ctrl"@, "alt"@, "meta"@].drop_first() =~= seq!["alt"@, "meta"@]);
        assert(seq!["alt"@, "meta"@].drop_first() =~= seq!["meta"@]);
        assert(seq!["meta"@].drop_first() =~= Seq::<Seq<char>>::empty());
        assert(spec_apply_modifiers(Modifiers { ctrl: true, shift: false, alt: true, meta: true }, Seq::<Seq<char>>::empty()) == Ok::<Modifiers, nat>(Modifiers { ctrl: true, shift: false, alt: true, meta: true }));
        assert(spec_apply_modifiers(Modifiers { ctrl: true, shift: false, alt: true, meta: false }, seq!["meta"@]) == Ok::<Modifiers, nat>(Modifiers { ctrl: true, shift: false, alt: true, meta: true }));
        assert(spec_apply_modifiers(Modifiers { ctrl: true, shift: false, alt: false, meta: false }, seq!["alt"@, "meta"@]) == Ok::<Modifiers, nat>(Modifiers { ctrl: true, shift: false, alt: true, meta: true }));
        assert(spec_apply_modifiers(Modifiers { ctrl: false, shift: false, alt: false, meta: false }, seq!["ctrl"@, "alt"@, "meta"@]) == Ok::<Modifiers, nat>(Modifiers { ctrl: true, shift: false, alt: true, meta: true }));
    } else if m.ctrl && !m.shift && m.alt && !m.meta {
        assert(mod_names_seq(m) =~= seq!["ctrl"@, "alt"@]);
        assert(seq!["ctrl"@, "alt"@].drop_first() =~= seq!["alt"@]);
        assert(seq!["alt"@].drop_first() =~= Seq::<Seq<char>>::empty());
        assert(spec_apply_modifiers(Modifiers { ctrl: true, shift: false, alt: true, meta: false }, Seq::<Seq<char>>::empty()) == Ok::<Modifiers, nat>(Modifiers { ctrl: true, shift: false, alt: true, meta: false }));
        assert(spec_apply_modifiers(Modifiers { ctrl: true, shift: false, alt: false, meta: false }, seq!["alt"@]) == Ok::<Modifiers, nat>(Modifiers { ctrl: true, shift: false, alt: true, meta: false }));
        assert(spec_apply_modifiers(Modifiers { ctrl: false, shift: false, alt: false, meta: false }, seq!["ctrl"@, "alt"@]) == Ok::<Modifiers, nat>(Modifiers { ctrl: true, shift: false, alt: true, meta: false }));
    } else if m.ctrl && !m.shift && !m.alt && m.meta {
        assert(mod_names_seq(m) =~= seq!["ctrl"@, "meta"@]);
        assert(seq!["ctrl"@, "meta"@].drop_first() =~= seq!["meta"@]);
        assert(seq!["meta"@].drop_first() =~= Seq::<Seq<char>>::empty());
        assert(spec_apply_modifiers(Modifiers { ctrl: true, shift: false, alt: false, meta: true }, Seq::<Seq<char>>::empty()) == Ok::<Modifiers, nat>(Modifiers { ctrl: true, shift: false, alt: false, meta: true }));
        assert(spec_apply_modifiers(Modifiers { ctrl: true, shift: false, alt: false, meta: false }, seq!["meta"@]) == Ok::<Modifiers, nat>(Modifiers { ctrl: true, shift: false, alt: false, meta: true }));
        assert(spec_apply_modifiers(Modifiers { ctrl: false, shift: false, alt: false, meta: false }, seq!["ctrl"@, "meta"@]) == Ok::<Modifiers, nat>(Modifiers { ctrl: true, shift: false, alt: false, meta: true }));
    } else if m.ctrl && !m.shift && !m.alt && !m.meta {
        assert(mod_names_seq(m) =~= seq!["ctrl"@]);
        assert(seq!["ctrl"@].drop_first() =~= Seq::<Seq<char>>::empty());
        assert(spec_apply_modifiers(Modifiers { ctrl: true, shift: false, alt: false, meta: false }, Seq::<Seq<char>>::empty()) == Ok::<Modifiers, nat>(Modifiers { ctrl: true, shift: false, alt: false, meta: false }));
        assert(spec_apply_modifiers(Modifiers { ctrl: false, shift: false, alt: false, meta: false }, seq!["ctrl"@]) == Ok::<Modifiers, nat>(Modifiers { ctrl: true, shift: false, alt: false, meta: false }));
    } else if !m.ctrl && m.shift && m.alt && m.meta {
        assert(mod_names_seq(m) =~= seq!["shift"@, "alt"@, "meta"@]);
        assert(seq!["shift"@, "alt"@, "meta"@].drop_first() =~= seq!["alt"@, "meta"@]);
        assert(seq!["alt"@, "meta"@].drop_first() =~= seq!["meta"@]);
        assert(seq!["meta"@].drop_first() =~= Seq::<Seq<char>>::empty());
        assert(spec_apply_modifiers(Modifiers { ctrl: false, shift: true, alt: true, meta: true }, Seq::<Seq<char>>::empty()) == Ok::<Modifiers, nat>(Modifiers { ctrl: false, shift: true, alt: true, meta: true }));
        assert(spec_apply_modifiers(Modifiers { ctrl: false, shift: true, alt: true, meta: false }, seq!["meta"@]) == Ok::<Modifiers, nat>(Modifiers { ctrl: false, shift: true, alt: true, meta: true }));
        assert(spec_apply_modifiers(Modifiers { ctrl: false, shift: true, alt: false, meta: false }, seq!["alt"@, "meta"@]) == Ok::<Modifiers, nat>(Modifiers { ctrl: false, shift: true, alt: true, meta: true }));
        assert(spec_apply_modifiers(Modifiers { ctrl: false, shift: false, alt: false, meta: false }, seq!["shift"@, "alt"@, "meta"@]) == Ok::<Modifiers, nat>(Modifiers { ctrl: false, shift: true, alt: true, meta: true }));
    } else if !m.ctrl && m.shift && m.alt && !m.meta {
        assert(mod_names_seq(m) =~= seq!["shift"@, "alt"@]);
        assert(seq!["shift"@, "alt"@].drop_first() =~= seq!["alt"@]);
        assert(seq!["alt"@].drop_first() =~= Seq::<Seq<char>>::empty());
        assert(spec_apply_modifiers(Modifiers { ctrl: false, shift: true, alt: true, meta: false }, Seq::<Seq<char>>::empty()) == Ok::<Modifiers, nat>(Modifiers { ctrl: false, shift: true, alt: true, meta: false }));
        assert(spec_apply_modifiers(Modifiers { ctrl: false, shift: true, alt: false, meta: false }, seq!["alt"@]) == Ok::<Modifiers, nat>(Modifiers { ctrl: false, shift: true, alt: true, meta: false }));
        assert(spec_apply_modifiers(Modifiers { ctrl: false, shift: false, alt: false, meta: false }, seq!["shift"@, "alt"@]) == Ok::<Modifiers, nat>(Modifiers { ctrl: false, shift: true, alt: true, meta: false }));
    } else if !m.ctrl && m.shift && !m.alt && m.meta {
        assert(mod_names_seq(m) =~= seq!["shift"@, "meta"@]);
        assert(seq!["shift"@, "meta"@].drop_first() =~= seq!["meta"@]);
        assert(seq!["meta"@].drop_first() =~= Seq::<Seq<char>>::empty());
        assert(spec_apply_modifiers(Modifiers { ctrl: false, shift: true, alt: false, meta: true }, Seq::<Seq<char>>::empty()) == Ok::<Modifiers, nat>(Modifiers { ctrl: false, shift: true, alt: false, meta: true }));
        assert(spec_apply_modifiers(Modifiers { ctrl: false, shift: true, alt: false, meta: false }, seq!["meta"@]) == Ok::<Modifiers, nat>(Modifiers { ctrl: false, shift: true, alt: false, meta: true }));
        assert(spec_apply_modifiers(Modifiers { ctrl: false, shift: false, alt: false, meta: false }, seq!["shift"@, "meta"@]) == Ok::<Modifiers, nat>(Modifiers { ctrl: false, shift: true, alt: false, meta: true }));
    } else if !m.ctrl && m.shift && !m.alt && !m.meta {
        assert(mod_names_seq(m) =~= seq!["shift"@]);
        assert(seq!["shift"@].drop_first() =~= Seq::<Seq<char>>::empty());
        assert(spec_apply_modifiers(Modifiers { ctrl: false, shift: true, alt: false, meta: false }, Seq::<Seq<char>>::empty()) == Ok::<Modifiers, nat>(Modifiers { ctrl: false, shift: true, alt: false, meta: false }));
        assert(spec_apply_modifiers(Modifiers { ctrl: false, shift: false, alt: false, meta: false }, seq!["shift"@]) == Ok::<Modifiers, nat>(Modifiers { ctrl: false, shift: true, alt: false, meta: false }));
    } else if !m.ctrl && !m.shift && m.alt && m.meta {
        assert(mod_names_seq(m) =~= seq!["alt"@, "meta"@]);
        assert(seq!["alt"@, "meta"@].drop_first() =~= seq!["meta"@]);
        assert(seq!["meta"@].drop_first() =~= Seq::<Seq<char>>::empty());
        assert(spec_apply_modifiers(Modifiers { ctrl: false, shift: false, alt: true, meta: true }, Seq::<Seq<char>>::empty()) == Ok::<Modifiers, nat>(Modifiers { ctrl: false, shift: false, alt: true, meta: true }));
        assert(spec_apply_modifiers(Modifiers { ctrl: false, shift: false, alt: true, meta: false }, seq!["meta"@]) == Ok::<Modifiers, nat>(Modifiers { ctrl: false, shift: false, alt: true, meta: true }));
        assert(spec_apply_modifiers(Modifiers { ctrl: false, shift: false, alt: false, meta: false }, seq!["alt"@, "meta"@]) == Ok::<Modifiers, nat>(Modifiers { ctrl: false, shift: false, alt: true, meta: true }));
    } else if !m.ctrl && !m.shift && m.alt && !m.meta {
        assert(mod_names_seq(m) =~= seq!["alt"@]);
        assert(seq!["alt"@].drop_first() =~= Seq::<Seq<char>>::empty());
        assert(spec_apply_modifiers(Modifiers { ctrl: false, shift: false, alt: true, meta: false }, Seq::<Seq<char>>::empty()) == Ok::<Modifiers, nat>(Modifiers { ctrl: false, shift: false, alt: true, meta: false }));
        assert(spec_apply_modifiers(Modifiers { ctrl: false, shift: false, alt: false, meta: false }, seq!["alt"@]) == Ok::<Modifiers, nat>(Modifiers { ctrl: false, shift: false, alt: true, meta: false }));
    } else if !m.ctrl && !m.shift && !m.alt && m.meta {
        assert(mod_names_seq(m) =~= seq!["meta"@]);
        assert(seq!["meta"@].drop_first() =~= Seq::<Seq<char>>::empty());
        assert(spec_apply_modifiers(Modifiers { ctrl: false, shift: false, alt: false, meta: true }, Seq::<Seq<char>>::empty()) == Ok::<Modifiers, nat>(Modifiers { ctrl: false, shift: false, alt: false, meta: true }));
        assert(spec_apply_modifiers(Modifiers { ctrl: false, shift: false, alt: false, meta: false }, seq!["meta"@]) == Ok::<Modifiers, nat>(Modifiers { ctrl: false, shift: false, alt: false, meta: true }));
    } else if !m.ctrl && !m.shift && !m.alt && !m.meta {
        assert(mod_names_seq(m) =~= Seq::<Seq<char>>::empty());
        assert(spec_apply_modifiers(no_mods(), Seq::<Seq<char>>::empty()) == Ok::<Modifiers, nat>(no_mods()));
    }
}

/// Translation is deterministic and round-trips through the canonical
/// formatting: the canonical modifier names plus the canonical key name
/// of any binding translate back to exactly that binding.
pub proof fn lemma_translate_round_trip(m: Modifiers, k: KeyCode)
    ensures
        spec_translate(mod_names_seq(m), spec_key_name(k)) == Ok::<Shortcut, TranslateFault>(
            Shortcut { mods: m, key: k },
        ),
{
    lemma_apply_canonical_names(m);
    lemma_key_name_parses(k);
}



} // verus!
