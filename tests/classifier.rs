use sprite_animation::classifier::{
    classify, ActiveAction, BasisSignal, ClassifyError, JumpPhase, RUNNING_THRESHOLD,
};
use sprite_animation::state::AnimationState;

fn grounded(speed: u64) -> Option<BasisSignal> {
    Some(BasisSignal { grounded: true, horizontal_speed: speed })
}

#[test]
fn grounded_at_rest_is_standing() {
    assert_eq!(classify(None, grounded(0)), Ok(Some(AnimationState::Standing)));
}

#[test]
fn grounded_at_threshold_is_standing() {
    assert_eq!(
        classify(None, grounded(RUNNING_THRESHOLD)),
        Ok(Some(AnimationState::Standing))
    );
}

#[test]
fn grounded_just_above_threshold_is_running() {
    assert_eq!(
        classify(None, grounded(RUNNING_THRESHOLD + 10)),
        Ok(Some(AnimationState::Running(1_001)))
    );
}

#[test]
fn running_rate_is_a_tenth_of_speed() {
    // 5 m/s runs the clip at half speed.
    assert_eq!(
        classify(None, grounded(5_000_000)),
        Ok(Some(AnimationState::Running(500_000)))
    );
    // 2.5 m/s gives a quarter.
    assert_eq!(
        classify(None, grounded(2_500_000)),
        Ok(Some(AnimationState::Running(250_000)))
    );
}

#[test]
fn running_rate_rounds_down() {
    assert_eq!(
        classify(None, grounded(123_457)),
        Ok(Some(AnimationState::Running(12_345)))
    );
}

#[test]
fn largest_speed_is_running() {
    assert_eq!(
        classify(None, grounded(u64::MAX)),
        Ok(Some(AnimationState::Running(u64::MAX / 10)))
    );
}

#[test]
fn airborne_is_falling_at_any_speed() {
    for speed in [0u64, RUNNING_THRESHOLD, 5_000_000, u64::MAX] {
        assert_eq!(
            classify(None, Some(BasisSignal { grounded: false, horizontal_speed: speed })),
            Ok(Some(AnimationState::Falling))
        );
    }
}

#[test]
fn missing_basis_skips_tick() {
    assert_eq!(classify(None, None), Ok(None));
}

#[test]
fn jump_phases() {
    let rising = [
        JumpPhase::StartingJump,
        JumpPhase::SlowDownTooFastSlopeJump,
        JumpPhase::MaintainingJump,
        JumpPhase::StoppedMaintainingJump,
    ];
    for phase in rising {
        assert_eq!(
            classify(Some(ActiveAction::Jump(phase)), grounded(5_000_000)),
            Ok(Some(AnimationState::Jumping))
        );
    }
    assert_eq!(
        classify(Some(ActiveAction::Jump(JumpPhase::FallSection)), grounded(0)),
        Ok(Some(AnimationState::Falling))
    );
}

#[test]
fn jump_not_started_skips_tick() {
    assert_eq!(
        classify(Some(ActiveAction::Jump(JumpPhase::NoJump)), grounded(5_000_000)),
        Ok(None)
    );
}

#[test]
fn unrecognized_action_is_an_error() {
    assert_eq!(
        classify(Some(ActiveAction::Unrecognized), grounded(0)),
        Err(ClassifyError::UnrecognizedAction)
    );
}
