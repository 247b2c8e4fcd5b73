//! The global-hotkey binding and the rebind-with-rollback protocol.
//!
//! `HotkeyManager` owns the currently registered shortcut. The operating
//! system's hotkey registration table is reached through the `HotkeyPort`
//! trait that the host process implements; at most one shortcut is ever
//! registered through it at a time, and the manager's stored binding and
//! the registration are proved never to diverge, except for the one
//! reported degraded outcome in which a failed rebind's rollback also
//! fails and no hotkey is left active.

use vstd::prelude::*;

use crate::keycodes::Shortcut;

verus! {

/// Why a rebind attempt was refused.
///
/// `RegisterFailed { restored: false }` is the degraded outcome: the new
/// shortcut could not be registered and re-registering the old one failed
/// too, so no hotkey is active; the stored binding still names the old
/// shortcut.
#[derive(Clone, Copy, Debug, PartialEq, Eq, Structural)]
pub enum RebindError {
    UnregisterFailed,
    RegisterFailed { restored: bool },
}

/// Registering the startup binding failed; fatal to startup.
#[derive(Clone, Copy, Debug, PartialEq, Eq, Structural)]
pub struct StartupRegistrationError;

/// The state of a hotkey notification delivered by the host.
#[derive(Clone, Copy, Debug, PartialEq, Eq, Structural)]
pub enum HotkeyPressState {
    Pressed,
    Released,
}

/// The operating system's global-hotkey registration service, as the host
/// process exposes it. `registered()` is the shortcut this process holds
/// registered, if any; the service may refuse either operation, leaving
/// the table as the contract states.
pub trait HotkeyPort {
    spec fn registered(&self) -> Option<Shortcut>;

    fn register(&mut self, s: Shortcut) -> (r: bool)
        requires
            old(self).registered() is None,
        ensures
            r ==> final(self).registered() == Some(s),
            !r ==> final(self).registered() is None,
    ;

    fn unregister(&mut self, s: Shortcut) -> (r: bool)
        requires
            old(self).registered() == Some(s),
        ensures
            r ==> final(self).registered() is None,
            !r ==> final(self).registered() == Some(s),
    ;
}

/// Owner of the one currently registered shortcut.
pub struct HotkeyManager {
    current: Shortcut,
}

impl HotkeyManager {
    /// The shortcut the manager holds as registered.
    pub closed spec fn binding(&self) -> Shortcut {
        self.current
    }

    /// Registers the startup binding exactly once; failure is propagated,
    /// not retried, and leaves nothing registered.
    pub fn initialize<P: HotkeyPort>(port: &mut P, default: Shortcut) -> (r: Result<
        HotkeyManager,
        StartupRegistrationError,
    >)
        requires
            old(port).registered() is None,
        ensures
            (r matches Ok(m) ==> m.binding() == default && final(port).registered() == Some(
                default,
            )),
            r is Err ==> final(port).registered() is None,
    {
        if port.register(default) {
            Ok(HotkeyManager { current: default })
        } else {
            Err(StartupRegistrationError)
        }
    }

    /// Snapshot of the current binding.
    pub fn current_binding(&self) -> (r: Shortcut)
        ensures
            r == self.binding(),
    {
        self.current
    }

    /// Swaps the registered shortcut for `new`: unregister the old one,
    /// register the new one, roll back to the old one if that fails.
    ///
    /// Atomic with respect to `current_binding`: after success the stored
    /// binding is `new`; after any failure it is exactly its pre-call
    /// value. The registration table ends as the error reports: still the
    /// old shortcut after `UnregisterFailed` or a restored rollback,
    /// nothing after `RegisterFailed { restored: false }`.
    pub fn rebind<P: HotkeyPort>(&mut self, port: &mut P, new: Shortcut) -> (r: Result<
        (),
        RebindError,
    >)
        requires
            old(port).registered() == Some(old(self).binding()),
        ensures
            r is Ok ==> final(self).binding() == new && final(port).registered() == Some(new),
            r is Err ==> final(self).binding() == old(self).binding(),
            r == Err::<(), RebindError>(RebindError::UnregisterFailed) ==> final(port).registered()
                == Some(old(self).binding()),
            r == Err::<(), RebindError>(RebindError::RegisterFailed { restored: true })
                ==> final(port).registered() == Some(old(self).binding()),
            r == Err::<(), RebindError>(RebindError::RegisterFailed { restored: false })
                ==> final(port).registered() is None,
            (r matches Err(e) ==> e is UnregisterFailed || e is RegisterFailed),
    {
        let previous = self.current;
        if !port.unregister(previous) {
            return Err(RebindError::UnregisterFailed);
        }
        if !port.register(new) {
            let restored = port.register(previous);
            return Err(RebindError::RegisterFailed { restored });
        }
        self.current = new;
        Ok(())
    }
}

/// Whether a hotkey notification triggers the visibility toggle: only a
/// press does; releases fall through.
pub fn should_toggle(event: HotkeyPressState) -> (r: bool)
    ensures
        r == (event is Pressed),
{
    match event {
        HotkeyPressState::Pressed => true,
        HotkeyPressState::Released => false,
    }
}

/// A hotkey service with scripted refusals: the in-crate implementation
/// of `HotkeyPort` that the test suite drives.
pub struct ScriptedHotkeyPort {
    pub slot: Option<Shortcut>,
    pub deny_register: bool,
    pub deny_register_once: bool,
    pub deny_unregister: bool,
}

impl HotkeyPort for ScriptedHotkeyPort {
    closed spec fn registered(&self) -> Option<Shortcut> {
        self.slot
    }

    fn register(&mut self, s: Shortcut) -> (r: bool) {
        if self.deny_register_once {
            self.deny_register_once = false;
            false
        } else if self.deny_register {
            false
        } else {
            self.slot = Some(s);
            true
        }
    }

    fn unregister(&mut self, s: Shortcut) -> (r: bool) {
        if self.deny_unregister {
            false
        } else {
            self.slot = None;
            true
        }
    }
}

impl ScriptedHotkeyPort {
    /// A service with nothing registered and no scripted refusals.
    pub fn new() -> (r: ScriptedHotkeyPort)
        ensures
            r.registered() is None,
            !r.deny_register,
            !r.deny_register_once,
            !r.deny_unregister,
    {
        ScriptedHotkeyPort {
            slot: None,
            deny_register: false,
            deny_register_once: false,
            deny_unregister: false,
        }
    }

    /// What the scripted service holds registered, for inspection by
    /// tests.
    pub fn registered_shortcut(&self) -> (r: Option<Shortcut>)
        ensures
            r == self.registered(),
    {
        self.slot
    }

    /// Scripts every following register call to be refused.
    pub fn refuse_register(&mut self, deny: bool)
        ensures
            final(self).deny_register == deny,
            final(self).slot == old(self).slot,
            final(self).deny_register_once == old(self).deny_register_once,
            final(self).deny_unregister == old(self).deny_unregister,
    {
        self.deny_register = deny;
    }

    /// Scripts exactly the next register call to be refused.
    pub fn refuse_register_once(&mut self)
        ensures
            final(self).deny_register_once,
            final(self).slot == old(self).slot,
            final(self).deny_register == old(self).deny_register,
            final(self).deny_unregister == old(self).deny_unregister,
    {
        self.deny_register_once = true;
    }

    /// Scripts the next unregister calls to be refused.
    pub fn refuse_unregister(&mut self, deny: bool)
        ensures
            final(self).deny_unregister == deny,
            final(self).slot == old(self).slot,
            final(self).deny_register == old(self).deny_register,
    {
        self.deny_unregister = deny;
    }
}

} // verus!
