//! The top-level game-flow state machine: Loading until every declared asset
//! reports loaded, MainMenu until the start control is activated, then
//! Playing. Transition decisions are plain functions from signal to next
//! state, so the tick driver applies them explicitly.

use vstd::prelude::*;

verus! {

/// The process-wide game state. Initialized to `Loading` at startup.
#[derive(Clone, Copy, PartialEq, Eq, Structural, Debug)]
pub enum GameState {
    Loading,
    MainMenu,
    Playing,
}

/// One tick's snapshot of the pointer's relation to the start control.
#[derive(Clone, Copy, PartialEq, Eq, Structural, Debug)]
pub enum Interaction {
    /// The control was confirmed (clicked) this tick.
    Clicked,
    /// The pointer hovers over the control.
    Hovered,
    /// No interaction with the control.
    Idle,
}

/// Which image the start control shows in response to interaction.
#[derive(Clone, Copy, PartialEq, Eq, Structural, Debug)]
pub enum ButtonVisual {
    Normal,
    Pressed,
}

/// Every declared asset reports loaded.
pub open spec fn all_loaded_spec(flags: Seq<bool>) -> bool {
    forall|i: int| 0 <= i < flags.len() ==> flags[i]
}

/// Folds per-asset readiness flags into the signal the Loading state
/// consumes: true exactly when every declared asset reports loaded.
pub fn assets_all_loaded(flags: &Vec<bool>) -> (b: bool)
    ensures
        b == all_loaded_spec(flags@),
{
    let mut i: usize = 0;
    while i < flags.len()
        invariant
            i <= flags.len(),
            forall|j: int| 0 <= j < i ==> flags@[j],
        decreases flags.len() - i,
    {
        if !flags[i] {
            assert(!flags@[i as int]);
            return false;
        }
        i = i + 1;
    }
    true
}

/// The state that follows `Loading` given the asset-readiness signal.
pub open spec fn loading_next_spec(all_loaded: bool) -> GameState {
    if all_loaded {
        GameState::MainMenu
    } else {
        GameState::Loading
    }
}

/// Consumes the asset-readiness signal: leaves `Loading` for `MainMenu` on
/// the tick where the last asset's readiness flips true, and not before.
pub fn loading_next(all_loaded: bool) -> (s: GameState)
    ensures
        s == loading_next_spec(all_loaded),
{
    if all_loaded {
        GameState::MainMenu
    } else {
        GameState::Loading
    }
}

/// The image the start control shows for a given interaction.
pub open spec fn button_visual_spec(i: Interaction) -> ButtonVisual {
    if i == Interaction::Clicked {
        ButtonVisual::Pressed
    } else {
        ButtonVisual::Normal
    }
}

/// Whether the interaction confirms the start control.
pub open spec fn start_requested_spec(i: Interaction) -> bool {
    i == Interaction::Clicked
}

/// Reacts to the start control: a click shows the pressed image and requests
/// the transition to `Playing`; hovering or no interaction shows the normal
/// image and requests nothing.
pub fn handle_start_button(i: Interaction) -> (r: (ButtonVisual, bool))
    ensures
        r.0 == button_visual_spec(i),
        r.1 == start_requested_spec(i),
{
    match i {
        Interaction::Clicked => (ButtonVisual::Pressed, true),
        Interaction::Hovered => (ButtonVisual::Normal, false),
        Interaction::Idle => (ButtonVisual::Normal, false),
    }
}

/// The Loading state is left exactly when every declared asset reports
/// loaded: while any flag is still false the state stays `Loading`, and on
/// the tick where the last flag flips true it becomes `MainMenu`.
pub proof fn lemma_loading_gate(flags: Seq<bool>)
    ensures
        (loading_next_spec(all_loaded_spec(flags)) == GameState::MainMenu) <==> all_loaded_spec(
            flags,
        ),
        (exists|i: int| 0 <= i < flags.len() && !flags[i]) ==> loading_next_spec(
            all_loaded_spec(flags),
        ) == GameState::Loading,
{
    if exists|i: int| 0 <= i < flags.len() && !flags[i] {
        let i = choose|i: int| 0 <= i < flags.len() && !flags[i];
        assert(!flags[i]);
    }
}

} // verus!
