use vstd::prelude::*;

verus! {

/// The game's single active mode.
#[derive(Clone, Copy, Debug, PartialEq, Eq, Structural)]
pub enum GameState {
    /// Assets are being loaded.
    Loading,
    /// The round is running.
    Playing,
    /// The round is over; the menu waits for the player to start again.
    Menu,
}

/// A request for a change of state that the transition table does not have.
#[derive(Clone, Copy, Debug, PartialEq, Eq, Structural)]
pub enum StateError {
    InvalidStateTransition,
}

/// Loading leads to Playing, Playing to Menu and Menu back to Playing;
/// asking for the state already active is allowed and changes nothing.
pub open spec fn transition_allowed(from: GameState, to: GameState) -> bool {
    ||| from == to
    ||| (from == GameState::Loading && to == GameState::Playing)
    ||| (from == GameState::Playing && to == GameState::Menu)
    ||| (from == GameState::Menu && to == GameState::Playing)
}

/// Checks a request to go from `from` to `to`: `Ok(true)` when the state
/// changes, `Ok(false)` when `to` is already active.
pub fn check_transition(from: GameState, to: GameState) -> (r: Result<bool, StateError>)
    ensures
        !transition_allowed(from, to) ==> r == Err::<bool, StateError>(StateError::InvalidStateTransition),
        transition_allowed(from, to) ==> r == Ok::<bool, StateError>(from != to),
{
    match (from, to) {
        (GameState::Loading, GameState::Loading) => Ok(false),
        (GameState::Playing, GameState::Playing) => Ok(false),
        (GameState::Menu, GameState::Menu) => Ok(false),
        (GameState::Loading, GameState::Playing) => Ok(true),
        (GameState::Playing, GameState::Menu) => Ok(true),
        (GameState::Menu, GameState::Playing) => Ok(true),
        _ => Err(StateError::InvalidStateTransition),
    }
}

} // verus!
