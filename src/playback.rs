use vstd::prelude::*;
use crate::state::{AnimationState, StateKind, kind_of};
use crate::tracker::TransitionDirective;

verus! {

/// The natural playback rate, in millionths.
pub const NATURAL_RATE: u64 = 1_000_000;

/// The rate of the jumping clip: twice the natural rate.
pub const JUMP_RATE: u64 = 2_000_000;

/// What the clip player should do in answer to a directive. Each animation
/// state has a clip of its own, named by the state's kind.
#[derive(Clone, Copy, Debug, PartialEq, Eq, Structural)]
pub enum PlaybackCommand {
    /// Stop whatever plays and start `clip` from its beginning at `rate`
    /// millionths of its natural rate, looping when `repeat` is set.
    Start { clip: StateKind, rate: u64, repeat: bool },
    /// Change the rate of the running clip without restarting it.
    SetRate { clip: StateKind, rate: u64 },
    /// Leave the playing clip as it is.
    Keep,
}

/// The rate, in millionths, at which the clip of `s` is played.
pub open spec fn clip_rate(s: AnimationState) -> u64 {
    match s {
        AnimationState::Standing => NATURAL_RATE,
        AnimationState::Running(rate) => rate,
        AnimationState::Jumping => JUMP_RATE,
        AnimationState::Falling => NATURAL_RATE,
    }
}

/// Whether the clip of `s` loops; the others play once.
pub open spec fn clip_repeats(s: AnimationState) -> bool {
    s is Standing || s is Running
}

/// The command for directive `d`.
pub open spec fn command_for(d: TransitionDirective) -> PlaybackCommand {
    match d {
        TransitionDirective::Alter(_, s) => PlaybackCommand::Start {
            clip: kind_of(s),
            rate: clip_rate(s),
            repeat: clip_repeats(s),
        },
        TransitionDirective::Maintain(AnimationState::Running(rate)) => PlaybackCommand::SetRate {
            clip: StateKind::Running,
            rate,
        },
        TransitionDirective::Maintain(_) => PlaybackCommand::Keep,
    }
}

/// Turns a directive into a clip command. A change of variant starts the new
/// state's clip: standing and running loop, jumping and falling play once;
/// jumping plays at twice the natural rate, running at its own rate, the
/// others at the natural rate. While running goes on, its clip follows the
/// new rate without restarting; any other unchanged state keeps its clip.
pub fn playback_command(d: &TransitionDirective) -> (r: PlaybackCommand)
    ensures
        r == command_for(*d),
{
    match d {
        TransitionDirective::Alter(_, s) => {
            let (rate, repeat) = match s {
                AnimationState::Standing => (NATURAL_RATE, true),
                AnimationState::Running(rate) => (*rate, true),
                AnimationState::Jumping => (JUMP_RATE, false),
                AnimationState::Falling => (NATURAL_RATE, false),
            };
            PlaybackCommand::Start { clip: s.kind(), rate, repeat }
        },
        TransitionDirective::Maintain(AnimationState::Running(rate)) => PlaybackCommand::SetRate {
            clip: StateKind::Running,
            rate: *rate,
        },
        TransitionDirective::Maintain(_) => PlaybackCommand::Keep,
    }
}

} // verus!
