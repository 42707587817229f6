//! The signal relay's state machine.
//!
//! The relay listens for the terminal and job-control signals. For each one
//! delivered it decides between two outcomes: while a foreground child runs,
//! the signal is suppressed at the shell level (the terminal already
//! delivered it to the child); with no child running, the signal is re-raised
//! against the shell itself so that the default disposition takes effect, and
//! the relay stops listening for good.

use vstd::prelude::*;

verus! {

/// The fixed set of signals the relay listens for.
#[derive(PartialEq, Eq, Structural, Clone, Copy, Debug)]
pub enum RelaySignal {
    Interrupt,
    Terminate,
    Quit,
    TerminalStop,
    TerminalIn,
    TerminalOut,
}

/// The relay's listener state. `Forwarded` is terminal: once the relay has
/// re-raised a signal against the shell, it never acts again.
#[derive(PartialEq, Eq, Structural, Clone, Copy, Debug)]
pub enum RelayState {
    Listening,
    Forwarded,
}

/// What the listener does with one delivered signal.
#[derive(PartialEq, Eq, Structural, Clone, Copy, Debug)]
pub enum RelayAction {
    /// Re-raise exactly this signal against the shell's own process and stop
    /// listening.
    Reraise(RelaySignal),
    /// Do nothing: the foreground child is the signal's intended target.
    Suppress,
    /// The relay has already forwarded a signal; it acts no more.
    Idle,
}

/// The shared state of the signal relay: the flag the command loop toggles
/// around each spawn, and the listener's own state.
pub struct SignalHandler {
    child_running: bool,
    state: RelayState,
}

impl SignalHandler {
    /// Whether the command loop has registered a running foreground child.
    pub closed spec fn spec_child_running(&self) -> bool {
        self.child_running
    }

    /// The listener's state: `Forwarded` once a signal has been re-raised.
    pub closed spec fn spec_state(&self) -> RelayState {
        self.state
    }

    /// A fresh relay: no child running, listening.
    pub fn new() -> (h: SignalHandler)
        ensures
            !h.spec_child_running(),
            h.spec_state() == RelayState::Listening,
    {
        SignalHandler { child_running: false, state: RelayState::Listening }
    }

    /// Sets the child-running flag. The command loop is the only caller:
    /// `true` immediately before a spawn, `false` once the child's exit
    /// status has been observed.
    pub fn ignore_signals(&mut self, value: bool)
        ensures
            final(self).spec_child_running() == value,
            final(self).spec_state() == old(self).spec_state(),
    {
        self.child_running = value;
    }

    /// Decides what the relay does with the delivered signal `sig`. While a
    /// child is registered as running, the signal is suppressed and the
    /// relay keeps listening; with no child running, exactly `sig` is
    /// re-raised against the shell and the relay moves to its terminal
    /// state, after which every later delivery is ignored.
    pub fn on_signal(&mut self, sig: RelaySignal) -> (act: RelayAction)
        ensures
            final(self).spec_child_running() == old(self).spec_child_running(),
            old(self).spec_state() == RelayState::Forwarded ==> act == RelayAction::Idle
                && final(self).spec_state() == RelayState::Forwarded,
            old(self).spec_state() == RelayState::Listening && old(self).spec_child_running()
                ==> act == RelayAction::Suppress && final(self).spec_state()
                == RelayState::Listening,
            old(self).spec_state() == RelayState::Listening && !old(self).spec_child_running()
                ==> act == RelayAction::Reraise(sig) && final(self).spec_state()
                == RelayState::Forwarded,
    {
        match self.state {
            RelayState::Forwarded => RelayAction::Idle,
            RelayState::Listening => {
                if self.child_running {
                    RelayAction::Suppress
                } else {
                    self.state = RelayState::Forwarded;
                    RelayAction::Reraise(sig)
                }
            },
        }
    }
}

} // verus!
