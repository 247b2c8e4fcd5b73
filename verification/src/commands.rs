//! The synchronous commands the host UI layer invokes.
//!
//! `change_shortcut` runs the whole rebind path: translate the textual
//! names, then swap the registration under the manager's protocol;
//! `get_current_shortcut` reports the current binding in the canonical
//! display form. Errors are structured, and each carries a message the
//! host can show, naming the unsupported token or the failed stage.

use vstd::prelude::*;

use crate::hotkey::HotkeyManager;
use crate::hotkey::HotkeyPort;
use crate::hotkey::RebindError;
use crate::keycodes::TranslateError;
use crate::keycodes::TranslateFault;
use crate::keycodes::format_modifiers;
use crate::keycodes::key_name;
use crate::keycodes::mods_string;
use crate::keycodes::spec_key_name;
use crate::keycodes::spec_translate;
use crate::keycodes::translate;

verus! {

/// Why a `change_shortcut` command failed: the request named an
/// unsupported token, or the hotkey service refused a stage of the swap.
#[derive(Debug, PartialEq, Eq)]
pub enum ShortcutCommandError {
    Unsupported(TranslateError),
    Registration(RebindError),
}

/// The message text of a `change_shortcut` failure.
pub open spec fn spec_error_message(e: ShortcutCommandError) -> Seq<char> {
    match e {
        ShortcutCommandError::Unsupported(TranslateError::Modifier(t)) => "Unsupported modifier: "@
            + t@,
        ShortcutCommandError::Unsupported(TranslateError::Key(t)) => "Unsupported key: "@ + t@,
        ShortcutCommandError::Registration(RebindError::UnregisterFailed) => "Failed to unregister old shortcut"@,
        ShortcutCommandError::Registration(
            RebindError::RegisterFailed { restored: true },
        ) => "Failed to register new shortcut"@,
        ShortcutCommandError::Registration(
            RebindError::RegisterFailed { restored: false },
        ) => "Failed to register new shortcut; the previous shortcut could not be restored"@,
    }
}

impl ShortcutCommandError {
    /// The error string reported to the host, naming the unsupported
    /// token or the failed stage.
    pub fn message(&self) -> (r: String)
        ensures
            r@ == spec_error_message(*self),
    {
        match self {
            ShortcutCommandError::Unsupported(TranslateError::Modifier(t)) => {
                let mut s = String::from_str("Unsupported modifier: ");
                s.append(t.as_str());
                s
            },
            ShortcutCommandError::Unsupported(TranslateError::Key(t)) => {
                let mut s = String::from_str("Unsupported key: ");
                s.append(t.as_str());
                s
            },
            ShortcutCommandError::Registration(RebindError::UnregisterFailed) => {
                String::from_str("Failed to unregister old shortcut")
            },
            ShortcutCommandError::Registration(RebindError::RegisterFailed { restored }) => {
                if *restored {
                    String::from_str("Failed to register new shortcut")
                } else {
                    String::from_str(
                        "Failed to register new shortcut; the previous shortcut could not be restored",
                    )
                }
            },
        }
    }
}

/// Translates the requested names and swaps the registered shortcut.
///
/// An unsupported token is reported without touching the binding or the
/// registration. Otherwise the outcome is the rebind protocol's: on
/// success the stored binding and the registration both name the new
/// shortcut; on failure the stored binding keeps its pre-call value and
/// the registration ends as the error reports.
pub fn change_shortcut<P: HotkeyPort>(
    mgr: &mut HotkeyManager,
    port: &mut P,
    modifier_names: &Vec<String>,
    key: &str,
) -> (r: Result<(), ShortcutCommandError>)
    requires
        old(port).registered() == Some(old(mgr).binding()),
    ensures
        (match spec_translate(modifier_names.deep_view(), key@) {
            Err(TranslateFault::BadModifier { index }) => {
                &&& (r matches Err(ShortcutCommandError::Unsupported(TranslateError::Modifier(t)))
                    && t@ == modifier_names.deep_view()[index as int])
                &&& final(mgr).binding() == old(mgr).binding()
                &&& final(port).registered() == old(port).registered()
            },
            Err(TranslateFault::BadKey) => {
                &&& (r matches Err(ShortcutCommandError::Unsupported(TranslateError::Key(t))) && t@
                    == key@)
                &&& final(mgr).binding() == old(mgr).binding()
                &&& final(port).registered() == old(port).registered()
            },
            Ok(s) => {
                &&& (r is Ok ==> final(mgr).binding() == s && final(port).registered() == Some(s))
                &&& (r is Err ==> final(mgr).binding() == old(mgr).binding())
                &&& (r matches Err(e) ==> e matches ShortcutCommandError::Registration(_))
                &&& (r == Err::<(), ShortcutCommandError>(
                    ShortcutCommandError::Registration(RebindError::UnregisterFailed),
                ) ==> final(port).registered() == Some(old(mgr).binding()))
                &&& (r == Err::<(), ShortcutCommandError>(
                    ShortcutCommandError::Registration(
                        RebindError::RegisterFailed { restored: true },
                    ),
                ) ==> final(port).registered() == Some(old(mgr).binding()))
                &&& (r == Err::<(), ShortcutCommandError>(
                    ShortcutCommandError::Registration(
                        RebindError::RegisterFailed { restored: false },
                    ),
                ) ==> final(port).registered() is None)
            },
        }),
{
    let requested = match translate(modifier_names, key) {
        Ok(s) => s,
        Err(e) => {
            return Err(ShortcutCommandError::Unsupported(e));
        },
    };
    match mgr.rebind(port, requested) {
        Ok(()) => Ok(()),
        Err(e) => Err(ShortcutCommandError::Registration(e)),
    }
}

/// Reports the current binding as the host UI displays it: the canonical
/// modifiers string (`none` for the empty set) and the key name.
pub fn get_current_shortcut(mgr: &HotkeyManager) -> (r: (String, String))
    ensures
        r.0@ == mods_string(mgr.binding().mods),
        r.1@ == spec_key_name(mgr.binding().key),
{
    let current = mgr.current_binding();
    (format_modifiers(current.mods), String::from_str(key_name(current.key)))
}

} // verus!
