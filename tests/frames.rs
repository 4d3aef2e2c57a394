use sprite_animation::frames::{advance_frame, AnimationTimer};
use sprite_animation::state::AnimationState;

#[test]
fn zero_period_has_no_timer() {
    assert!(AnimationTimer::from_period(0).is_none());
    let t = AnimationTimer::from_period(100).unwrap();
    assert_eq!((t.period, t.elapsed), (100, 0));
}

#[test]
fn tick_accumulates_and_wraps() {
    let mut t = AnimationTimer::from_period(100).unwrap();
    assert!(!t.tick(40));
    assert_eq!(t.elapsed, 40);
    assert!(!t.tick(59));
    assert_eq!(t.elapsed, 99);
    assert!(t.tick(1));
    assert_eq!(t.elapsed, 0);
    assert!(t.tick(350));
    assert_eq!(t.elapsed, 50);
}

#[test]
fn tick_with_largest_delta() {
    let mut t = AnimationTimer::from_period(7).unwrap();
    t.tick(3);
    assert!(t.tick(u64::MAX));
    assert_eq!(t.elapsed, ((3u128 + u64::MAX as u128) % 7) as u64);
}

#[test]
fn aligned_ticks_cycle_through_frames() {
    let period: u64 = 100_000_000;
    let frames: usize = 7;
    let running = Some(AnimationState::Running(500_000));
    let mut timer = AnimationTimer::from_period(period).unwrap();
    let mut index: usize = 0;
    for k in 1..=20usize {
        index = advance_frame(&running, &mut timer, period, index, frames);
        assert_eq!(index, k % frames);
        assert_eq!(timer.elapsed, 0);
    }
}

#[test]
fn running_waits_for_the_timer() {
    let running = Some(AnimationState::Running(1));
    let mut timer = AnimationTimer::from_period(100).unwrap();
    assert_eq!(advance_frame(&running, &mut timer, 50, 4, 7), 4);
    assert_eq!(advance_frame(&running, &mut timer, 50, 4, 7), 5);
    assert_eq!(advance_frame(&running, &mut timer, 100, 6, 7), 0);
}

#[test]
fn running_wraps_an_index_past_the_end() {
    let running = Some(AnimationState::Running(1));
    let mut timer = AnimationTimer::from_period(10).unwrap();
    assert_eq!(advance_frame(&running, &mut timer, 10, usize::MAX, 7), (usize::MAX % 7 + 1) % 7);
}

#[test]
fn stationary_states_reset_to_first_frame() {
    for s in [AnimationState::Standing, AnimationState::Jumping, AnimationState::Falling] {
        let mut timer = AnimationTimer::from_period(100).unwrap();
        timer.tick(30);
        assert_eq!(advance_frame(&Some(s), &mut timer, 500, 5, 7), 0);
        assert_eq!(timer.elapsed, 30);
        // The frame count plays no part outside running.
        assert_eq!(advance_frame(&Some(s), &mut timer, 500, 5, 0), 0);
    }
}

#[test]
fn no_state_changes_nothing() {
    let mut timer = AnimationTimer::from_period(100).unwrap();
    assert_eq!(advance_frame(&None, &mut timer, 500, 5, 7), 5);
    assert_eq!(timer.elapsed, 0);
}
