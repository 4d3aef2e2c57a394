use vstd::prelude::*;
use crate::state::AnimationState;
use crate::tracker::{AnimatingState, TransitionDirective, directive_for};

verus! {

/// Horizontal speed, in micrometres per second, above which a grounded
/// character counts as running (a hundredth of a metre per second).
pub const RUNNING_THRESHOLD: u64 = 10_000;

/// How far into a jump the character is.
#[derive(Clone, Copy, Debug, PartialEq, Eq, Structural)]
pub enum JumpPhase {
    NoJump,
    StartingJump,
    SlowDownTooFastSlopeJump,
    MaintainingJump,
    StoppedMaintainingJump,
    FallSection,
}

/// The action the character controller is performing.
#[derive(Clone, Copy, Debug, PartialEq, Eq, Structural)]
pub enum ActiveAction {
    /// The jump action, in the given phase.
    Jump(JumpPhase),
    /// An action that the classifier was not set up for.
    Unrecognized,
}

/// What the walking basis reports for this tick.
#[derive(Clone, Copy, Debug, PartialEq, Eq, Structural)]
pub struct BasisSignal {
    /// Whether the character stands on something.
    pub grounded: bool,
    /// Length of the running velocity, in micrometres per second.
    pub horizontal_speed: u64,
}

/// Why a tick could not be classified.
#[derive(Clone, Copy, Debug, PartialEq, Eq, Structural)]
pub enum ClassifyError {
    /// The controller performs an action that the classifier does not know;
    /// the controller and the classifier are wired up inconsistently.
    UnrecognizedAction,
}

/// The playback rate, in millionths, of the running clip at `speed`
/// micrometres per second: a tenth of the speed, rounded down.
pub open spec fn running_rate(speed: nat) -> nat {
    speed / 10
}

/// The animation state for a tick: `Ok(None)` where this tick is to be
/// skipped, leaving the tracked state as it was.
pub open spec fn classification(
    action: Option<ActiveAction>,
    basis: Option<BasisSignal>,
) -> Result<Option<AnimationState>, ClassifyError> {
    match action {
        Some(ActiveAction::Jump(phase)) => match phase {
            JumpPhase::NoJump => Ok(None),
            JumpPhase::FallSection => Ok(Some(AnimationState::Falling)),
            _ => Ok(Some(AnimationState::Jumping)),
        },
        Some(ActiveAction::Unrecognized) => Err(ClassifyError::UnrecognizedAction),
        None => match basis {
            None => Ok(None),
            Some(b) => if !b.grounded {
                Ok(Some(AnimationState::Falling))
            } else if b.horizontal_speed > RUNNING_THRESHOLD {
                Ok(Some(AnimationState::Running(running_rate(b.horizontal_speed as nat) as u64)))
            } else {
                Ok(Some(AnimationState::Standing))
            },
        },
    }
}

/// Maps the controller's signals to an animation state. An action, when
/// present, decides: a jump shows `Jumping` until its fall section, which
/// shows `Falling`; a jump that has not started skips the tick. Without an
/// action the basis decides: airborne is `Falling`, grounded above the
/// running threshold is `Running` at a tenth of the speed, else `Standing`;
/// with no basis yet the tick is skipped.
pub fn classify(action: Option<ActiveAction>, basis: Option<BasisSignal>) -> (r: Result<
    Option<AnimationState>,
    ClassifyError,
>)
    ensures
        r == classification(action, basis),
        r is Err <==> action == Some(ActiveAction::Unrecognized),
        action is None && basis is Some && basis->0.grounded ==> (if basis->0.horizontal_speed > RUNNING_THRESHOLD {
            r == Ok::<Option<AnimationState>, ClassifyError>(
                Some(AnimationState::Running((basis->0.horizontal_speed / 10) as u64)),
            )
        } else {
            r == Ok::<Option<AnimationState>, ClassifyError>(Some(AnimationState::Standing))
        }),
        action is None && basis is Some && !basis->0.grounded ==> r == Ok::<
            Option<AnimationState>,
            ClassifyError,
        >(Some(AnimationState::Falling)),
{
    match action {
        Some(ActiveAction::Jump(phase)) => match phase {
            JumpPhase::NoJump => Ok(None),
            JumpPhase::FallSection => Ok(Some(AnimationState::Falling)),
            JumpPhase::StartingJump | JumpPhase::SlowDownTooFastSlopeJump | JumpPhase::MaintainingJump
            | JumpPhase::StoppedMaintainingJump => Ok(Some(AnimationState::Jumping)),
        },
        Some(ActiveAction::Unrecognized) => Err(ClassifyError::UnrecognizedAction),
        None => match basis {
            None => Ok(None),
            Some(b) => {
                if !b.grounded {
                    Ok(Some(AnimationState::Falling))
                } else if b.horizontal_speed > RUNNING_THRESHOLD {
                    Ok(Some(AnimationState::Running(b.horizontal_speed / 10)))
                } else {
                    Ok(Some(AnimationState::Standing))
                }
            },
        },
    }
}

impl AnimatingState {
    /// One tick: classifies the signals and, unless the tick is skipped,
    /// feeds the result to the tracker. Returns the directive, or `None`
    /// for a skipped tick, which leaves the tracker unchanged; an
    /// unrecognized action is an error and also leaves it unchanged.
    pub fn observe(&mut self, action: Option<ActiveAction>, basis: Option<BasisSignal>) -> (r: Result<
        Option<TransitionDirective>,
        ClassifyError,
    >)
        ensures
            match classification(action, basis) {
                Err(e) => r == Err::<Option<TransitionDirective>, ClassifyError>(e) && final(self)@ == old(self)@,
                Ok(None) => r == Ok::<Option<TransitionDirective>, ClassifyError>(None) && final(self)@ == old(self)@,
                Ok(Some(s)) => r == Ok::<Option<TransitionDirective>, ClassifyError>(
                    Some(directive_for(old(self)@, s)),
                ) && final(self)@ == Some(s),
            },
    {
        match classify(action, basis) {
            Err(e) => Err(e),
            Ok(None) => Ok(None),
            Ok(Some(s)) => Ok(Some(self.update(s))),
        }
    }
}

/// Without an action, a grounded character at or below the running
/// threshold is standing, and above it is running at a tenth of its speed.
pub proof fn lemma_grounded_speed_classification(speed: u64)
    ensures
        speed <= RUNNING_THRESHOLD ==> classification(None, Some(BasisSignal { grounded: true, horizontal_speed: speed }))
            == Ok::<Option<AnimationState>, ClassifyError>(Some(AnimationState::Standing)),
        speed > RUNNING_THRESHOLD ==> classification(None, Some(BasisSignal { grounded: true, horizontal_speed: speed }))
            == Ok::<Option<AnimationState>, ClassifyError>(Some(AnimationState::Running((speed / 10) as u64))),
{
}

/// Without an action, a character that stands on nothing is falling,
/// whatever its speed.
pub proof fn lemma_airborne_falls(speed: u64)
    ensures
        classification(None, Some(BasisSignal { grounded: false, horizontal_speed: speed }))
            == Ok::<Option<AnimationState>, ClassifyError>(Some(AnimationState::Falling)),
{
}

/// During a jump, the fall section is `Falling` and every other started
/// phase is `Jumping`, whatever the basis reports.
pub proof fn lemma_jump_phases(phase: JumpPhase, basis: Option<BasisSignal>)
    ensures
        phase == JumpPhase::FallSection ==> classification(Some(ActiveAction::Jump(phase)), basis)
            == Ok::<Option<AnimationState>, ClassifyError>(Some(AnimationState::Falling)),
        phase != JumpPhase::FallSection && phase != JumpPhase::NoJump ==> classification(
            Some(ActiveAction::Jump(phase)),
            basis,
        ) == Ok::<Option<AnimationState>, ClassifyError>(Some(AnimationState::Jumping)),
{
}

} // verus!
