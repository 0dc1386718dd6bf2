use vstd::prelude::*;

verus! {

/// Visibility of the overlay: exactly one of these holds at a time.
#[derive(Clone, Copy, Debug, PartialEq, Eq, Structural)]
pub enum UiState {
    MenuOpen,
    Closed,
    Hidden,
}

/// The transition table, highest-priority rule first.
pub open spec fn next_state(state: UiState, toggle: bool, hide: bool, stay_hidden: bool) -> UiState {
    if state == UiState::Hidden && toggle {
        UiState::MenuOpen
    } else if hide {
        UiState::Hidden
    } else if state == UiState::MenuOpen && toggle {
        if stay_hidden {
            UiState::Hidden
        } else {
            UiState::Closed
        }
    } else if state == UiState::Closed && toggle {
        UiState::MenuOpen
    } else {
        state
    }
}

impl UiState {
    /// The state after one frame in which the toggle key and the force-hide key
    /// were (or were not) pressed. `stay_hidden` is the operator's earlier choice
    /// to keep the overlay hidden when the menu is closed.
    pub fn next(self, toggle: bool, hide: bool, stay_hidden: bool) -> (r: UiState)
        ensures
            r == next_state(self, toggle, hide, stay_hidden),
    {
        match self {
            UiState::Hidden if toggle => UiState::MenuOpen,
            _ if hide => UiState::Hidden,
            UiState::MenuOpen if toggle => {
                if stay_hidden {
                    UiState::Hidden
                } else {
                    UiState::Closed
                }
            },
            UiState::Closed if toggle => UiState::MenuOpen,
            _ => self,
        }
    }
}

/// The overlay's key transitions: a toggle opens a closed overlay and closes an
/// open one, a force-hide hides it from any state, and a toggle reopens a hidden
/// overlay whatever the force-hide key does in the same frame.
pub proof fn lemma_toggle_and_hide(state: UiState, hide: bool)
    ensures
        next_state(UiState::Closed, true, false, false) == UiState::MenuOpen,
        next_state(UiState::MenuOpen, true, false, false) == UiState::Closed,
        state != UiState::Hidden ==> next_state(state, false, true, false) == UiState::Hidden,
        state != UiState::Hidden ==> next_state(state, true, true, false) == UiState::Hidden,
        next_state(UiState::Hidden, false, true, false) == UiState::Hidden,
        next_state(UiState::Hidden, true, hide, false) == UiState::MenuOpen,
{
}

/// Without a key press the state never changes.
pub proof fn lemma_no_key_no_change(state: UiState, stay_hidden: bool)
    ensures
        next_state(state, false, false, stay_hidden) == state,
{
}

} // verus!
