//! The window visibility state machine.
//!
//! `toggle` reads the `(visible, focused)` observation once and decides
//! the transition: a hidden window is shown and focused; a visible but
//! unfocused window is only refocused, never hidden; a visible focused
//! window is hidden. The window or panel itself is behind the
//! `WindowPort` trait, whose implementations the host selects: a plain
//! top-level window, or the floating panel variant whose key-resignation
//! notification is answered by `on_key_resigned`.

use vstd::prelude::*;

use crate::tally::lemma_occurrences_push;
use crate::tally::occurrences;

verus! {

/// The operation that was being attempted when the windowing system
/// refused.
#[derive(Clone, Copy, Debug, PartialEq, Eq, Structural)]
pub enum VisAction {
    Show,
    Hide,
    Focus,
}

/// A windowing or panel call failed; carries the attempted action. The
/// operation is abandoned and the window is left as the system left it.
#[derive(Clone, Copy, Debug, PartialEq, Eq, Structural)]
pub struct VisibilityError {
    pub action: VisAction,
}

/// The three reachable observed states of the window.
#[derive(Clone, Copy, Debug, PartialEq, Eq, Structural)]
pub enum VisState {
    Hidden,
    VisibleUnfocused,
    VisibleFocused,
}

/// The observed state for a `(visible, focused)` snapshot.
pub open spec fn state_of(visible: bool, focused: bool) -> VisState {
    if !visible {
        VisState::Hidden
    } else if focused {
        VisState::VisibleFocused
    } else {
        VisState::VisibleUnfocused
    }
}

/// The window-or-panel abstraction the host supplies. `visible()` and
/// `focused()` are the current observation; `shows()`, `hides()` and
/// `focuses()` count the calls attempted against the underlying system,
/// successful or not. Each operation may fail; on failure the observation
/// is left wherever the system left it.
pub trait WindowPort {
    spec fn visible(&self) -> bool;

    spec fn focused(&self) -> bool;

    spec fn shows(&self) -> nat;

    spec fn hides(&self) -> nat;

    spec fn focuses(&self) -> nat;

    fn is_visible(&self) -> (r: bool)
        ensures
            r == self.visible(),
    ;

    fn is_focused(&self) -> (r: bool)
        ensures
            r == self.focused(),
    ;

    fn show(&mut self) -> (r: Result<(), VisibilityError>)
        ensures
            final(self).shows() == old(self).shows() + 1,
            final(self).hides() == old(self).hides(),
            final(self).focuses() == old(self).focuses(),
            r is Ok ==> final(self).visible() && final(self).focused() == old(self).focused(),
            (r matches Err(e) ==> e.action == VisAction::Show),
    ;

    fn conceal(&mut self) -> (r: Result<(), VisibilityError>)
        ensures
            final(self).hides() == old(self).hides() + 1,
            final(self).shows() == old(self).shows(),
            final(self).focuses() == old(self).focuses(),
            r is Ok ==> !final(self).visible() && !final(self).focused(),
            (r matches Err(e) ==> e.action == VisAction::Hide),
    ;

    fn focus(&mut self) -> (r: Result<(), VisibilityError>)
        ensures
            final(self).focuses() == old(self).focuses() + 1,
            final(self).shows() == old(self).shows(),
            final(self).hides() == old(self).hides(),
            r is Ok ==> final(self).visible() == old(self).visible() && final(self).focused(),
            (r matches Err(e) ==> e.action == VisAction::Focus),
    ;
}

/// Decides and performs one visibility transition from a fresh
/// observation.
///
/// From `Hidden` the window is shown then focused and ends
/// `VisibleFocused`; from `VisibleUnfocused` it is only refocused, with
/// no intervening hide, and ends `VisibleFocused`; from `VisibleFocused`
/// it is hidden and ends `Hidden`. A failed underlying call is reported
/// upward with the attempted action and nothing is retried.
pub fn toggle<W: WindowPort>(w: &mut W) -> (r: Result<VisState, VisibilityError>)
    ensures
        state_of(old(w).visible(), old(w).focused()) == VisState::Hidden ==> {
            &&& final(w).shows() == old(w).shows() + 1
            &&& final(w).hides() == old(w).hides()
            &&& (r matches Ok(s) ==> s == VisState::VisibleFocused && final(w).focuses() == old(
                w,
            ).focuses() + 1 && state_of(final(w).visible(), final(w).focused())
                == VisState::VisibleFocused)
            &&& (r matches Err(e) ==> e.action == VisAction::Show || e.action == VisAction::Focus)
        },
        state_of(old(w).visible(), old(w).focused()) == VisState::VisibleUnfocused ==> {
            &&& final(w).focuses() == old(w).focuses() + 1
            &&& final(w).shows() == old(w).shows()
            &&& final(w).hides() == old(w).hides()
            &&& (r matches Ok(s) ==> s == VisState::VisibleFocused && state_of(
                final(w).visible(),
                final(w).focused(),
            ) == VisState::VisibleFocused)
            &&& (r matches Err(e) ==> e.action == VisAction::Focus)
        },
        state_of(old(w).visible(), old(w).focused()) == VisState::VisibleFocused ==> {
            &&& final(w).hides() == old(w).hides() + 1
            &&& final(w).shows() == old(w).shows()
            &&& final(w).focuses() == old(w).focuses()
            &&& (r matches Ok(s) ==> s == VisState::Hidden && state_of(
                final(w).visible(),
                final(w).focused(),
            ) == VisState::Hidden)
            &&& (r matches Err(e) ==> e.action == VisAction::Hide)
        },
{
    let visible = w.is_visible();
    let focused = w.is_focused();
    if !visible {
        match w.show() {
            Ok(()) => {},
            Err(e) => {
                return Err(e);
            },
        }
        match w.focus() {
            Ok(()) => Ok(VisState::VisibleFocused),
            Err(e) => Err(e),
        }
    } else if !focused {
        match w.focus() {
            Ok(()) => Ok(VisState::VisibleFocused),
            Err(e) => Err(e),
        }
    } else {
        match w.conceal() {
            Ok(()) => Ok(VisState::Hidden),
            Err(e) => Err(e),
        }
    }
}

/// Answers the panel's lost-key notification: the panel is dismissed by
/// hiding it, independent of the tray and hotkey paths.
pub fn on_key_resigned<W: WindowPort>(w: &mut W) -> (r: Result<(), VisibilityError>)
    ensures
        final(w).hides() == old(w).hides() + 1,
        final(w).shows() == old(w).shows(),
        final(w).focuses() == old(w).focuses(),
        r is Ok ==> state_of(final(w).visible(), final(w).focused()) == VisState::Hidden,
        (r matches Err(e) ==> e.action == VisAction::Hide),
{
    w.conceal()
}

/// One recorded windowing call of the scripted window.
#[derive(Clone, Copy, Debug, PartialEq, Eq, Structural)]
pub enum WindowCall {
    Show,
    Hide,
    Focus,
}

/// A window with scripted refusals: the in-crate implementation of
/// `WindowPort` that the test suite drives. Every attempted call is
/// recorded in `calls`.
pub struct ScriptedWindow {
    pub now_visible: bool,
    pub now_focused: bool,
    pub deny_show: bool,
    pub deny_hide: bool,
    pub deny_focus: bool,
    pub calls: Vec<WindowCall>,
}

impl WindowPort for ScriptedWindow {
    closed spec fn visible(&self) -> bool {
        self.now_visible
    }

    closed spec fn focused(&self) -> bool {
        self.now_focused
    }

    closed spec fn shows(&self) -> nat {
        occurrences(self.calls@, WindowCall::Show)
    }

    closed spec fn hides(&self) -> nat {
        occurrences(self.calls@, WindowCall::Hide)
    }

    closed spec fn focuses(&self) -> nat {
        occurrences(self.calls@, WindowCall::Focus)
    }

    fn is_visible(&self) -> (r: bool) {
        self.now_visible
    }

    fn is_focused(&self) -> (r: bool) {
        self.now_focused
    }

    fn show(&mut self) -> (r: Result<(), VisibilityError>) {
        proof {
            lemma_occurrences_push(self.calls@, WindowCall::Show, WindowCall::Show);
            lemma_occurrences_push(self.calls@, WindowCall::Show, WindowCall::Hide);
            lemma_occurrences_push(self.calls@, WindowCall::Show, WindowCall::Focus);
        }
        self.calls.push(WindowCall::Show);
        if self.deny_show {
            Err(VisibilityError { action: VisAction::Show })
        } else {
            self.now_visible = true;
            Ok(())
        }
    }

    fn conceal(&mut self) -> (r: Result<(), VisibilityError>) {
        proof {
            lemma_occurrences_push(self.calls@, WindowCall::Hide, WindowCall::Show);
            lemma_occurrences_push(self.calls@, WindowCall::Hide, WindowCall::Hide);
            lemma_occurrences_push(self.calls@, WindowCall::Hide, WindowCall::Focus);
        }
        self.calls.push(WindowCall::Hide);
        if self.deny_hide {
            Err(VisibilityError { action: VisAction::Hide })
        } else {
            self.now_visible = false;
            self.now_focused = false;
            Ok(())
        }
    }

    fn focus(&mut self) -> (r: Result<(), VisibilityError>) {
        proof {
            lemma_occurrences_push(self.calls@, WindowCall::Focus, WindowCall::Show);
            lemma_occurrences_push(self.calls@, WindowCall::Focus, WindowCall::Hide);
            lemma_occurrences_push(self.calls@, WindowCall::Focus, WindowCall::Focus);
        }
        self.calls.push(WindowCall::Focus);
        if self.deny_focus {
            Err(VisibilityError { action: VisAction::Focus })
        } else {
            self.now_focused = true;
            Ok(())
        }
    }
}

impl ScriptedWindow {
    /// A window in the given observed state, with no scripted refusals.
    pub fn new(visible: bool, focused: bool) -> (r: ScriptedWindow)
        ensures
            r.visible() == visible,
            r.focused() == focused,
            r.shows() == 0,
            r.hides() == 0,
            r.focuses() == 0,
            !r.deny_show,
            !r.deny_hide,
            !r.deny_focus,
    {
        ScriptedWindow {
            now_visible: visible,
            now_focused: focused,
            deny_show: false,
            deny_hide: false,
            deny_focus: false,
            calls: Vec::new(),
        }
    }
}

} // verus!
