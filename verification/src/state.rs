//! Activity gate: whether the game is running or sitting in the menu.
//!
//! Every other component consults this gate before doing per-frame work.
//! While the game is in the menu, the spawn timer does not tick and clicks
//! produce no hits.

use vstd::prelude::*;

verus! {

/// The process-wide activity state. `Menu` means inactive: all spawn and
/// hit processing is suspended. `InGame` means active.
#[derive(Debug, Clone, Copy, Eq, PartialEq, Hash, Structural)]
pub enum GameState {
    Menu,
    InGame,
}

impl GameState {
    /// True exactly when per-frame work (ticking, spawning, hit-testing)
    /// is allowed.
    pub open spec fn spec_is_active(&self) -> bool {
        self is InGame
    }

    /// Executable query for the activity state, consulted by the other
    /// components before they do per-frame work.
    #[verifier::when_used_as_spec(spec_is_active)]
    pub fn is_active(&self) -> (r: bool)
        ensures
            r == self.spec_is_active(),
    {
        match self {
            GameState::InGame => true,
            GameState::Menu => false,
        }
    }

    /// Enter the active state. Idempotent: activating an already-active
    /// game changes nothing.
    pub fn activate(&mut self)
        ensures
            *final(self) == GameState::InGame,
    {
        *self = GameState::InGame;
    }

    /// Leave the active state. Idempotent: deactivating an already-inactive
    /// game changes nothing.
    pub fn deactivate(&mut self)
        ensures
            *final(self) == GameState::Menu,
    {
        *self = GameState::Menu;
    }

    /// Apply one frame's worth of edge-triggered input signals. `activate`
    /// and `deactivate` are true when the respective signal fired this
    /// frame. When both fire in the same frame, deactivation wins.
    pub fn apply_signals(&mut self, activate: bool, deactivate: bool)
        ensures
            *final(self) == (if deactivate {
                GameState::Menu
            } else if activate {
                GameState::InGame
            } else {
                *old(self)
            }),
    {
        if activate {
            self.activate();
        }
        if deactivate {
            self.deactivate();
        }
    }
}

} // verus!
