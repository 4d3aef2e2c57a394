use vstd::prelude::*;

verus! {

/// What the character is doing, as far as animation is concerned.
///
/// The payload of `Running` is the playback rate of the running clip, in
/// millionths of its natural rate. It does not take part in the variant's
/// identity: see `kind`.
#[derive(Clone, Copy, Debug, PartialEq, Eq, Structural)]
pub enum AnimationState {
    Standing,
    Running(u64),
    Jumping,
    Falling,
}

/// The tag of an `AnimationState`, without its payload.
#[derive(Clone, Copy, Debug, PartialEq, Eq, Structural)]
pub enum StateKind {
    Standing,
    Running,
    Jumping,
    Falling,
}

/// The tag of `s`.
pub open spec fn kind_of(s: AnimationState) -> StateKind {
    match s {
        AnimationState::Standing => StateKind::Standing,
        AnimationState::Running(_) => StateKind::Running,
        AnimationState::Jumping => StateKind::Jumping,
        AnimationState::Falling => StateKind::Falling,
    }
}

impl AnimationState {
    /// The variant tag of this state; two `Running` states with different
    /// rates have the same tag.
    pub fn kind(&self) -> (r: StateKind)
        ensures
            r == kind_of(*self),
    {
        match self {
            AnimationState::Standing => StateKind::Standing,
            AnimationState::Running(_) => StateKind::Running,
            AnimationState::Jumping => StateKind::Jumping,
            AnimationState::Falling => StateKind::Falling,
        }
    }

    /// Whether `self` and `other` are the same variant, payload ignored.
    pub fn same_variant(&self, other: &AnimationState) -> (r: bool)
        ensures
            r == (kind_of(*self) == kind_of(*other)),
    {
        self.kind() == other.kind()
    }
}

} // verus!
