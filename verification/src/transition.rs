//! The single-slot gate through which a change of the global game state is
//! requested.

use vstd::prelude::*;

verus! {

/// The global states the application can be in.
#[derive(Clone, Copy, Debug, PartialEq, Eq, Structural)]
pub enum AppStates {
    MainMenu,
    CharacterSelection,
    Game,
    GameOver,
    Victory,
}

/// What a gate holds after `target` has been requested of a gate holding
/// `pending`: the first request stays, a later one is ignored.
pub open spec fn requested(pending: Option<AppStates>, target: AppStates) -> Option<AppStates> {
    match pending {
        Some(first) => Some(first),
        None => Some(target),
    }
}

/// The first request wins: of two requests made of an idle gate before it
/// is consumed, the first target is the one pending and the second leaves no
/// trace. More generally a request changes nothing once one is pending.
pub proof fn lemma_first_request_wins(
    pending: Option<AppStates>,
    first: AppStates,
    second: AppStates,
)
    ensures
        requested(requested(None, first), second) == Some(first),
        requested(requested(pending, first), second) == requested(pending, first),
        pending is Some ==> requested(pending, first) == pending,
{
}

/// Arbiter of game-state transitions. It holds at most one outstanding
/// request; the state driver takes it out with [`consume`](Self::consume).
#[derive(Clone, Copy, Debug)]
pub struct GameStateTransitionGate {
    pending: Option<AppStates>,
}

impl View for GameStateTransitionGate {
    type V = Option<AppStates>;

    closed spec fn view(&self) -> Option<AppStates> {
        self.pending
    }
}

impl GameStateTransitionGate {
    /// A gate with no transition pending.
    pub fn new() -> (gate: Self)
        ensures
            gate@ == None::<AppStates>,
    {
        GameStateTransitionGate { pending: None }
    }

    /// Records `target` as the pending transition unless one is pending
    /// already, in which case the call changes nothing.
    pub fn request(&mut self, target: AppStates)
        ensures
            final(self)@ == requested(old(self)@, target),
    {
        if self.pending.is_none() {
            self.pending = Some(target);
        }
    }

    /// Hands out the pending transition, if any, and leaves none pending.
    pub fn consume(&mut self) -> (taken: Option<AppStates>)
        ensures
            taken == old(self)@,
            final(self)@ == None::<AppStates>,
    {
        let taken = self.pending;
        self.pending = None;
        taken
    }

    /// Whether a transition is waiting to be consumed.
    pub fn is_pending(&self) -> (pending: bool)
        ensures
            pending == self@.is_some(),
    {
        self.pending.is_some()
    }
}

} // verus!
