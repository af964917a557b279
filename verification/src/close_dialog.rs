//! The "do you really want to quit?" dialog.
//!
//! Each frame the window system tells whether the user asked to close the
//! viewport, and, while the dialog is shown, which of its buttons were
//! clicked. The state decides whether the close is cancelled (and the dialog
//! opened) and whether the viewport is to be closed for real.

use vstd::prelude::*;

verus! {

/// Close-confirmation state of the viewer.
pub struct CloseState {
    show_confirmation_dialog: bool,
    allowed_to_close: bool,
}

/// What one frame of the close logic asks of the window system.
#[derive(PartialEq, Eq, Structural, Debug, Clone, Copy)]
pub struct CloseCommands {
    /// Send `CancelClose`: the pending close request is refused.
    pub cancel_close: bool,
    /// Send `Close`: the user confirmed that the viewer shall quit.
    pub close: bool,
}

impl CloseState {
    /// Whether the confirmation dialog is shown.
    pub closed spec fn dialog_open(self) -> bool {
        self.show_confirmation_dialog
    }

    /// Whether the user has confirmed that the viewer may close.
    pub closed spec fn may_close(self) -> bool {
        self.allowed_to_close
    }

    /// The state with the given dialog and permission flags.
    pub closed spec fn with(dialog_open: bool, may_close: bool) -> CloseState {
        CloseState { show_confirmation_dialog: dialog_open, allowed_to_close: may_close }
    }

    /// A close request is refused, and the dialog opened, exactly when the
    /// user has not confirmed yet.
    pub open spec fn check_close_step(self, close_requested: bool) -> (CloseState, bool) {
        if close_requested && !self.may_close() {
            (CloseState::with(true, self.may_close()), true)
        } else {
            (self, false)
        }
    }

    /// While the dialog is shown, "No" closes it and withdraws the
    /// permission; "Yes" closes it, grants the permission and closes the
    /// viewport. "Yes" is handled after "No".
    pub open spec fn dialog_step(self, no_clicked: bool, yes_clicked: bool) -> (CloseState, bool) {
        if !self.dialog_open() {
            (self, false)
        } else if yes_clicked {
            (CloseState::with(false, true), true)
        } else if no_clicked {
            (CloseState::with(false, false), false)
        } else {
            (self, false)
        }
    }

    pub proof fn lemma_with(dialog_open: bool, may_close: bool)
        ensures
            CloseState::with(dialog_open, may_close).dialog_open() == dialog_open,
            CloseState::with(dialog_open, may_close).may_close() == may_close,
    {
    }

    /// Reacts to a close request of this frame. Returns whether the close
    /// is cancelled; it is cancelled, and the dialog opened, exactly when a
    /// close was requested and the user has not confirmed yet.
    pub fn check_close(&mut self, close_requested: bool) -> (cancel_close: bool)
        ensures
            (*final(self), cancel_close) == old(self).check_close_step(close_requested),
            cancel_close == (close_requested && !old(self).may_close()),
            final(self).may_close() == old(self).may_close(),
            final(self).dialog_open() == (old(self).dialog_open() || cancel_close),
    {
        if close_requested {
            if self.allowed_to_close {
                // the close goes ahead
                false
            } else {
                self.show_confirmation_dialog = true;
                true
            }
        } else {
            false
        }
    }

    /// Handles the buttons of the dialog, which only count while it is
    /// shown. Returns whether the viewport is to be closed.
    pub fn show_confirmation_dialog(&mut self, no_clicked: bool, yes_clicked: bool) -> (close: bool)
        ensures
            (*final(self), close) == old(self).dialog_step(no_clicked, yes_clicked),
            close == (old(self).dialog_open() && yes_clicked),
            final(self).dialog_open() == (old(self).dialog_open() && !no_clicked && !yes_clicked),
            final(self).may_close() == (if old(self).dialog_open() && yes_clicked {
                true
            } else if old(self).dialog_open() && no_clicked {
                false
            } else {
                old(self).may_close()
            }),
    {
        let mut close: bool = false;
        if self.show_confirmation_dialog {
            if no_clicked {
                self.show_confirmation_dialog = false;
                self.allowed_to_close = false;
            }
            if yes_clicked {
                self.show_confirmation_dialog = false;
                self.allowed_to_close = true;
                close = true;
            }
        }
        close
    }

    /// One frame: the close request first, then the dialog's buttons.
    pub fn update(&mut self, close_requested: bool, no_clicked: bool, yes_clicked: bool) -> (cmds: CloseCommands)
        ensures
            ({
                let (mid, cancel) = old(self).check_close_step(close_requested);
                let (last, close) = mid.dialog_step(no_clicked, yes_clicked);
                *final(self) == last && cmds == (CloseCommands { cancel_close: cancel, close: close })
            }),
            cmds.cancel_close == (close_requested && !old(self).may_close()),
            cmds.close == ((old(self).dialog_open() || cmds.cancel_close) && yes_clicked),
            final(self).dialog_open() == ((old(self).dialog_open() || cmds.cancel_close) && !no_clicked
                && !yes_clicked),
            final(self).may_close() == (if (old(self).dialog_open() || cmds.cancel_close) && yes_clicked {
                true
            } else if (old(self).dialog_open() || cmds.cancel_close) && no_clicked {
                false
            } else {
                old(self).may_close()
            }),
    {
        let cancel_close: bool = self.check_close(close_requested);
        let close: bool = self.show_confirmation_dialog(no_clicked, yes_clicked);
        CloseCommands { cancel_close, close }
    }

    /// Whether the dialog is shown.
    pub fn is_dialog_open(&self) -> (b: bool)
        ensures
            b == self.dialog_open(),
    {
        self.show_confirmation_dialog
    }

    /// Whether the user confirmed that the viewer may close.
    pub fn is_allowed_to_close(&self) -> (b: bool)
        ensures
            b == self.may_close(),
    {
        self.allowed_to_close
    }
}

impl Default for CloseState {
    /// Dialog hidden, closing not confirmed.
    fn default() -> (s: CloseState)
        ensures
            !s.dialog_open(),
            !s.may_close(),
    {
        CloseState { show_confirmation_dialog: false, allowed_to_close: false }
    }
}

/// After the user confirms with "Yes", the next close request is not
/// cancelled.
pub proof fn lemma_yes_lets_close_proceed(s: CloseState, no_clicked: bool)
    requires
        s.dialog_open(),
    ensures
        ({
            let (t, closed) = s.dialog_step(no_clicked, true);
            &&& closed
            &&& !t.check_close_step(true).1
            &&& t.check_close_step(true).0 == t
        }),
{
    CloseState::lemma_with(false, true);
}

/// After the user answers "No", the next close request is cancelled again
/// and the dialog comes back.
pub proof fn lemma_no_keeps_guard(s: CloseState)
    requires
        s.dialog_open(),
    ensures
        ({
            let (t, closed) = s.dialog_step(true, false);
            &&& !closed
            &&& !t.dialog_open()
            &&& t.check_close_step(true).1
            &&& t.check_close_step(true).0.dialog_open()
        }),
{
    CloseState::lemma_with(false, false);
    CloseState::lemma_with(true, false);
}

/// Until the user confirms, every close request is cancelled: from the
/// initial state, a request opens the dialog and is refused.
pub proof fn lemma_unconfirmed_close_cancelled(s: CloseState)
    requires
        !s.may_close(),
    ensures
        s.check_close_step(true).1,
        s.check_close_step(true).0.dialog_open(),
        !s.check_close_step(true).0.may_close(),
{
    CloseState::lemma_with(true, false);
}

/// Without a close request and without clicks, a frame changes nothing and
/// sends no command.
pub proof fn lemma_quiet_frame(s: CloseState)
    ensures
        s.check_close_step(false) == (s, false),
        s.dialog_step(false, false) == (s, false),
{
}


/// Close-confirmation state of the viewer, whose dialog the preferences can
/// switch off.
pub struct CloseWindowState {
    open: bool,
    allowed_to_close: bool,
}

impl CloseWindowState {
    /// Whether the confirmation dialog is shown.
    pub closed spec fn dialog_open(self) -> bool {
        self.open
    }

    /// Whether the user has confirmed that the viewer may close.
    pub closed spec fn may_close(self) -> bool {
        self.allowed_to_close
    }

    /// The state with the given dialog and permission flags.
    pub closed spec fn with(dialog_open: bool, may_close: bool) -> CloseWindowState {
        CloseWindowState { open: dialog_open, allowed_to_close: may_close }
    }

    pub proof fn lemma_with(dialog_open: bool, may_close: bool)
        ensures
            CloseWindowState::with(dialog_open, may_close).dialog_open() == dialog_open,
            CloseWindowState::with(dialog_open, may_close).may_close() == may_close,
    {
    }

    /// With the dialog enabled in the preferences, a close request is
    /// refused, and the dialog opened, exactly when the user has not
    /// confirmed yet; with the dialog disabled nothing is refused.
    pub open spec fn check_close_step(self, dialog_enabled: bool, close_requested: bool) -> (CloseWindowState, bool) {
        if dialog_enabled && close_requested && !self.may_close() {
            (CloseWindowState::with(true, self.may_close()), true)
        } else {
            (self, false)
        }
    }

    /// While the dialog is shown, "No" closes it and withdraws the
    /// permission; "Yes" closes it, grants the permission and closes the
    /// viewport. "Yes" is handled after "No".
    pub open spec fn dialog_step(self, no_clicked: bool, yes_clicked: bool) -> (CloseWindowState, bool) {
        if !self.dialog_open() {
            (self, false)
        } else if yes_clicked {
            (CloseWindowState::with(false, true), true)
        } else if no_clicked {
            (CloseWindowState::with(false, false), false)
        } else {
            (self, false)
        }
    }

    /// Reacts to a close request of this frame, given whether the close
    /// dialog is enabled in the preferences. Returns whether the close is
    /// cancelled.
    pub fn check_close(&mut self, dialog_enabled: bool, close_requested: bool) -> (cancel_close: bool)
        ensures
            (*final(self), cancel_close) == old(self).check_close_step(dialog_enabled, close_requested),
            cancel_close == (dialog_enabled && close_requested && !old(self).may_close()),
            final(self).may_close() == old(self).may_close(),
            final(self).dialog_open() == (old(self).dialog_open() || cancel_close),
    {
        if dialog_enabled && close_requested {
            if self.allowed_to_close {
                // the close goes ahead
                false
            } else {
                self.open = true;
                true
            }
        } else {
            false
        }
    }

    /// Handles the buttons of the dialog, which only count while it is
    /// shown. Returns whether the viewport is to be closed.
    pub fn show_confirmation_dialog(&mut self, no_clicked: bool, yes_clicked: bool) -> (close: bool)
        ensures
            (*final(self), close) == old(self).dialog_step(no_clicked, yes_clicked),
            close == (old(self).dialog_open() && yes_clicked),
            final(self).dialog_open() == (old(self).dialog_open() && !no_clicked && !yes_clicked),
            final(self).may_close() == (if old(self).dialog_open() && yes_clicked {
                true
            } else if old(self).dialog_open() && no_clicked {
                false
            } else {
                old(self).may_close()
            }),
    {
        let mut close: bool = false;
        if self.open {
            if no_clicked {
                self.open = false;
                self.allowed_to_close = false;
            }
            if yes_clicked {
                self.open = false;
                self.allowed_to_close = true;
                close = true;
            }
        }
        close
    }

    /// One frame: the close request first, then the dialog's buttons.
    pub fn update(&mut self, dialog_enabled: bool, close_requested: bool, no_clicked: bool, yes_clicked: bool) -> (cmds: CloseCommands)
        ensures
            ({
                let (mid, cancel) = old(self).check_close_step(dialog_enabled, close_requested);
                let (last, close) = mid.dialog_step(no_clicked, yes_clicked);
                *final(self) == last && cmds == (CloseCommands { cancel_close: cancel, close: close })
            }),
            cmds.cancel_close == (dialog_enabled && close_requested && !old(self).may_close()),
            cmds.close == ((old(self).dialog_open() || cmds.cancel_close) && yes_clicked),
            final(self).dialog_open() == ((old(self).dialog_open() || cmds.cancel_close) && !no_clicked
                && !yes_clicked),
            final(self).may_close() == (if (old(self).dialog_open() || cmds.cancel_close) && yes_clicked {
                true
            } else if (old(self).dialog_open() || cmds.cancel_close) && no_clicked {
                false
            } else {
                old(self).may_close()
            }),
    {
        let cancel_close: bool = self.check_close(dialog_enabled, close_requested);
        let close: bool = self.show_confirmation_dialog(no_clicked, yes_clicked);
        CloseCommands { cancel_close, close }
    }

    /// Whether the dialog is shown.
    pub fn is_dialog_open(&self) -> (b: bool)
        ensures
            b == self.dialog_open(),
    {
        self.open
    }

    /// Whether the user confirmed that the viewer may close.
    pub fn is_allowed_to_close(&self) -> (b: bool)
        ensures
            b == self.may_close(),
    {
        self.allowed_to_close
    }
}

impl Default for CloseWindowState {
    /// Dialog hidden, closing not confirmed.
    fn default() -> (s: CloseWindowState)
        ensures
            !s.dialog_open(),
            !s.may_close(),
    {
        CloseWindowState { open: false, allowed_to_close: false }
    }
}

/// With the close dialog switched off in the preferences, no close request
/// is ever cancelled and the state does not change.
pub proof fn lemma_disabled_dialog_never_cancels(s: CloseWindowState, close_requested: bool)
    ensures
        s.check_close_step(false, close_requested) == (s, false),
{
}

/// With the dialog enabled, after "Yes" the next close request goes ahead,
/// and after "No" it is cancelled again.
pub proof fn lemma_window_dialog_answers(s: CloseWindowState)
    requires
        s.dialog_open(),
    ensures
        !s.dialog_step(false, true).0.check_close_step(true, true).1,
        s.dialog_step(false, true).1,
        s.dialog_step(true, false).0.check_close_step(true, true).1,
        !s.dialog_step(true, false).1,
{
    CloseWindowState::lemma_with(false, true);
    CloseWindowState::lemma_with(false, false);
}

} // verus!
