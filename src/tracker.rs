use vstd::prelude::*;
use crate::state::{AnimationState, kind_of};

verus! {

/// What the playback layer should do after a tick.
#[derive(Clone, Copy, Debug, PartialEq, Eq, Structural)]
pub enum TransitionDirective {
    /// The variant is unchanged; the payload may differ from the last tick.
    Maintain(AnimationState),
    /// The variant changed (or there was no state before): the old state, if
    /// any, then the new one.
    Alter(Option<AnimationState>, AnimationState),
}

/// The directive for `candidate` when `current` was the state of the last tick.
pub open spec fn directive_for(current: Option<AnimationState>, candidate: AnimationState) -> TransitionDirective {
    match current {
        Some(s) => if kind_of(s) == kind_of(candidate) {
            TransitionDirective::Maintain(candidate)
        } else {
            TransitionDirective::Alter(current, candidate)
        },
        None => TransitionDirective::Alter(None, candidate),
    }
}

/// The directives produced by feeding `candidates` one after another to a
/// tracker whose state is `current`.
pub open spec fn replay(current: Option<AnimationState>, candidates: Seq<AnimationState>) -> Seq<TransitionDirective>
    decreases candidates.len(),
{
    if candidates.len() == 0 {
        Seq::empty()
    } else {
        seq![directive_for(current, candidates[0])] + replay(Some(candidates[0]), candidates.drop_first())
    }
}

/// The animation state of one animated entity, tracked from tick to tick.
#[derive(Clone, Copy, Debug)]
pub struct AnimatingState {
    current: Option<AnimationState>,
}

impl AnimatingState {
    pub closed spec fn view(self) -> Option<AnimationState> {
        self.current
    }

    /// A tracker that has not classified anything yet.
    pub fn new() -> (r: AnimatingState)
        ensures
            r@ is None,
    {
        AnimatingState { current: None }
    }

    /// The state of the last tick, if any.
    pub fn get(&self) -> (r: Option<AnimationState>)
        ensures
            r == self@,
    {
        self.current
    }

    /// Records `candidate` as this tick's state and says whether its variant
    /// differs from the last tick's. The stored state is `candidate` itself,
    /// payload included, whichever directive comes back.
    pub fn update(&mut self, candidate: AnimationState) -> (r: TransitionDirective)
        ensures
            r == directive_for(old(self)@, candidate),
            final(self)@ == Some(candidate),
            old(self)@ is None ==> r == TransitionDirective::Alter(None, candidate),
    {
        let old_state = self.current;
        self.current = Some(candidate);
        match old_state {
            Some(s) => {
                if s.same_variant(&candidate) {
                    TransitionDirective::Maintain(candidate)
                } else {
                    TransitionDirective::Alter(old_state, candidate)
                }
            },
            None => TransitionDirective::Alter(None, candidate),
        }
    }
}

impl Default for AnimatingState {
    /// A tracker that has not classified anything yet.
    fn default() -> (r: AnimatingState)
        ensures
            r@ is None,
    {
        AnimatingState::new()
    }
}

/// A run of candidates that all share one variant yields one directive per
/// candidate: the first is `Alter` exactly when the tracker held no state or
/// a state of another variant, and every later one is `Maintain` with its
/// candidate, so no further `Alter` comes.
pub proof fn lemma_same_variant_run(current: Option<AnimationState>, candidates: Seq<AnimationState>)
    requires
        candidates.len() >= 1,
        forall|i: int| 0 <= i < candidates.len() ==> kind_of(#[trigger] candidates[i]) == kind_of(candidates[0]),
    ensures
        replay(current, candidates).len() == candidates.len(),
        replay(current, candidates)[0] is Alter <==> (current is None || kind_of(current->0) != kind_of(candidates[0])),
        forall|i: int| 1 <= i < candidates.len() ==> #[trigger] replay(current, candidates)[i] == TransitionDirective::Maintain(candidates[i]),
    decreases candidates.len(),
{
    let rest = candidates.drop_first();
    lemma_replay_len(Some(candidates[0]), rest);
    if candidates.len() > 1 {
        assert forall|i: int| 0 <= i < rest.len() implies kind_of(#[trigger] rest[i]) == kind_of(rest[0]) by {
            assert(rest[i] == candidates[i + 1]);
        }
        lemma_same_variant_run(Some(candidates[0]), rest);
        assert(replay(Some(candidates[0]), rest)[0] == TransitionDirective::Maintain(rest[0]));
        assert forall|i: int| 1 <= i < candidates.len() implies #[trigger] replay(current, candidates)[i] == TransitionDirective::Maintain(candidates[i]) by {
            assert(replay(current, candidates)[i] == replay(Some(candidates[0]), rest)[i - 1]);
            assert(rest[i - 1] == candidates[i]);
        }
    }
}

/// Replaying a sequence of candidates yields one directive per candidate.
pub proof fn lemma_replay_len(current: Option<AnimationState>, candidates: Seq<AnimationState>)
    ensures
        replay(current, candidates).len() == candidates.len(),
    decreases candidates.len(),
{
    if candidates.len() > 0 {
        lemma_replay_len(Some(candidates[0]), candidates.drop_first());
    }
}

/// The first candidate a tracker ever sees yields `Alter` from no state.
pub proof fn lemma_first_update_alters(candidate: AnimationState)
    ensures
        directive_for(None, candidate) == TransitionDirective::Alter(None, candidate),
{
}

/// A candidate whose variant differs from the held state's yields `Alter`
/// from that state; one of the same variant yields `Maintain` with the new
/// payload.
pub proof fn lemma_variant_change_alters(held: AnimationState, candidate: AnimationState)
    ensures
        kind_of(held) != kind_of(candidate) ==> directive_for(Some(held), candidate) == TransitionDirective::Alter(Some(held), candidate),
        kind_of(held) == kind_of(candidate) ==> directive_for(Some(held), candidate) == TransitionDirective::Maintain(candidate),
{
}

} // verus!
