//! The two states of the viewer and the transition between them.

use vstd::prelude::*;

verus! {

/// Which of the two sprites is on display.
#[derive(Clone, Copy, Debug, PartialEq, Eq, Hash, Structural)]
pub enum AppState {
    /// The 480x270 grid, whose size makes sampling artifacts visible.
    Artifacting,
    /// The 512x256 grid, which renders cleanly.
    Clean,
}

impl Default for AppState {
    /// The viewer starts on the artifacting sprite.
    fn default() -> (state: AppState)
        ensures
            state == AppState::Artifacting,
    {
        AppState::Artifacting
    }
}

impl AppState {
    /// The other state.
    pub open spec fn spec_toggled(self) -> AppState {
        match self {
            AppState::Artifacting => AppState::Clean,
            AppState::Clean => AppState::Artifacting,
        }
    }

    /// The other state.
    #[verifier::when_used_as_spec(spec_toggled)]
    pub fn toggled(self) -> (next: AppState)
        ensures
            next == self.spec_toggled(),
    {
        match self {
            AppState::Artifacting => AppState::Clean,
            AppState::Clean => AppState::Artifacting,
        }
    }
}

/// The state that one frame of input asks for: `Some` of the other state when
/// the space bar went down in this frame, `None` when it did not.
pub open spec fn requested_state(space_just_pressed: bool, current: AppState) -> Option<AppState> {
    if space_just_pressed {
        Some(current.spec_toggled())
    } else {
        None
    }
}

/// The state in force after a frame: the requested one, or the current one
/// where nothing was requested.
pub open spec fn state_after(space_just_pressed: bool, current: AppState) -> AppState {
    match requested_state(space_just_pressed, current) {
        Some(next) => next,
        None => current,
    }
}

/// The state after a run of frames, each given by whether the space bar went
/// down in it.
pub open spec fn state_after_frames(presses: Seq<bool>, start: AppState) -> AppState
    decreases presses.len(),
{
    if presses.len() == 0 {
        start
    } else {
        state_after(presses.last(), state_after_frames(presses.drop_last(), start))
    }
}

/// How many frames of a run saw the space bar go down.
pub open spec fn press_count(presses: Seq<bool>) -> nat
    decreases presses.len(),
{
    if presses.len() == 0 {
        0
    } else {
        press_count(presses.drop_last()) + if presses.last() { 1nat } else { 0nat }
    }
}

/// Decides the state change for one frame. Returns the state to enter, if
/// any: pressing space asks for the other state, anything else asks for
/// nothing.
pub fn toggle_state(space_just_pressed: bool, current: AppState) -> (request: Option<AppState>)
    ensures
        request == requested_state(space_just_pressed, current),
{
    if space_just_pressed {
        Some(current.toggled())
    } else {
        None
    }
}

/// Toggling never stays in place, and toggling twice comes back.
pub proof fn lemma_toggle_is_involution(state: AppState)
    ensures
        state.spec_toggled() != state,
        state.spec_toggled().spec_toggled() == state,
{
}

/// There are exactly two states: any state is either a given one or its
/// toggle.
pub proof fn lemma_two_states(a: AppState, b: AppState)
    ensures
        b == a || b == a.spec_toggled(),
{
}

/// A request, when there is one, always names a state other than the current
/// one, and there is one exactly when the space bar went down.
pub proof fn lemma_request_changes_state(space_just_pressed: bool, current: AppState)
    ensures
        requested_state(space_just_pressed, current).is_some() <==> space_just_pressed,
        requested_state(space_just_pressed, current) != Some(current),
        state_after(space_just_pressed, current) != current <==> space_just_pressed,
{
}

/// After any run of frames the state depends only on the parity of the number
/// of presses: an even number leaves the starting state, an odd number leaves
/// the other one.
pub proof fn lemma_state_follows_press_parity(presses: Seq<bool>, start: AppState)
    ensures
        press_count(presses) % 2 == 0 ==> state_after_frames(presses, start) == start,
        press_count(presses) % 2 == 1 ==> state_after_frames(presses, start)
            == start.spec_toggled(),
    decreases presses.len(),
{
    if presses.len() > 0 {
        lemma_state_follows_press_parity(presses.drop_last(), start);
    }
}

} // verus!
