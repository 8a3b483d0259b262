//! The two modes of the demo.

use vstd::prelude::*;

verus! {

/// The mode of the demo: the menu that builds the firework, then the launch.
#[derive(Clone, Copy, Debug, PartialEq, Eq, Hash, Structural)]
pub enum AppState {
    Builder,
    Launch,
}

impl AppState {
    /// How far the demo has come: the menu is before the launch.
    pub open spec fn rank(self) -> nat {
        match self {
            AppState::Builder => 0,
            AppState::Launch => 1,
        }
    }

    /// Whether the menu is drawn and listened to in this mode.
    pub fn runs_menu(self) -> (runs: bool)
        ensures
            runs == (self == AppState::Builder),
    {
        match self {
            AppState::Builder => true,
            AppState::Launch => false,
        }
    }
}

impl Default for AppState {
    /// The demo starts in the menu.
    fn default() -> (state: AppState)
        ensures
            state == AppState::Builder,
    {
        AppState::Builder
    }
}

} // verus!
