//! Tests of the play-state enum, transition phases, e-ink cycling and
//! the aggregate simulator state.

use simulator::state::{
    AnimationState, EinkState, PlayState, SimulatorState, TransitionPhase, TransitionState,
};
use simulator::epconfig::TransitionType;

#[test]
fn test_play_state_names() {
    assert_eq!(PlayState::Idle.display_name(), "Idle");
    assert_eq!(
        PlayState::Loop.display_name_zh(),
        "\u{5faa}\u{73af}\u{64ad}\u{653e}"
    );
}

#[test]
fn test_transition_phase() {
    assert_eq!(TransitionPhase::from_progress(0), TransitionPhase::PhaseIn);
    assert_eq!(
        TransitionPhase::from_progress(500_000),
        TransitionPhase::PhaseHold
    );
    assert_eq!(
        TransitionPhase::from_progress(800_000),
        TransitionPhase::PhaseOut
    );
    assert_eq!(
        TransitionPhase::from_progress(1_000_000),
        TransitionPhase::PhaseDone
    );
}

#[test]
fn test_transition_phase_boundaries() {
    // Each boundary belongs to the higher phase.
    assert_eq!(
        TransitionPhase::from_progress(332_999),
        TransitionPhase::PhaseIn
    );
    assert_eq!(
        TransitionPhase::from_progress(333_000),
        TransitionPhase::PhaseHold
    );
    assert_eq!(
        TransitionPhase::from_progress(666_999),
        TransitionPhase::PhaseHold
    );
    assert_eq!(
        TransitionPhase::from_progress(667_000),
        TransitionPhase::PhaseOut
    );
    assert_eq!(
        TransitionPhase::from_progress(999_999),
        TransitionPhase::PhaseOut
    );
}

#[test]
fn test_eink_state() {
    // Before start
    assert_eq!(EinkState::from_frame(10, 30, 15), EinkState::Idle);
    // First black
    assert_eq!(EinkState::from_frame(30, 30, 15), EinkState::FirstBlack);
    // Content after all states
    assert_eq!(EinkState::from_frame(120, 30, 15), EinkState::Content);
}

#[test]
fn test_eink_full_cycle() {
    assert_eq!(EinkState::from_frame(30, 30, 15), EinkState::FirstBlack);
    assert_eq!(EinkState::from_frame(45, 30, 15), EinkState::FirstWhite);
    assert_eq!(EinkState::from_frame(60, 30, 15), EinkState::SecondBlack);
    assert_eq!(EinkState::from_frame(75, 30, 15), EinkState::SecondWhite);
    assert_eq!(EinkState::from_frame(90, 30, 15), EinkState::Idle);
    // Content is terminal from the fifth full state on.
    assert_eq!(EinkState::from_frame(105, 30, 15), EinkState::Content);
    for frame in 105..400 {
        assert_eq!(EinkState::from_frame(frame, 30, 15), EinkState::Content);
    }
}

#[test]
fn test_eink_predicates() {
    assert!(EinkState::FirstBlack.is_black());
    assert!(EinkState::SecondBlack.is_black());
    assert!(!EinkState::FirstWhite.is_black());
    assert!(EinkState::FirstWhite.is_white());
    assert!(EinkState::SecondWhite.is_white());
    assert!(!EinkState::Content.is_white());
    assert!(EinkState::Content.is_content());
    assert!(!EinkState::Idle.is_content());
}

#[test]
fn test_play_state_ids() {
    for id in 0u8..6u8 {
        let state = PlayState::from_u8(id).expect("known identifier");
        assert_eq!(state.as_u8(), id);
    }
    assert!(PlayState::from_u8(6).is_none());
    assert!(PlayState::from_u8(255).is_none());
}

#[test]
fn test_transition_progress() {
    let mut t = TransitionState {
        frame: 0,
        total_frames: 0,
        transition_type: TransitionType::NoEffect,
        video_switched: false,
    };
    // A zero-length transition is instantaneously done.
    assert_eq!(t.progress(), 1_000_000);
    assert_eq!(t.phase(), TransitionPhase::PhaseDone);
    assert!(t.is_complete());

    t.reset(TransitionType::Fade, 100);
    assert_eq!(t.progress(), 0);
    assert!(!t.video_switched);
    t.frame = 50;
    assert_eq!(t.progress(), 500_000);
    t.frame = 100;
    assert_eq!(t.progress(), 1_000_000);
    t.frame = 250;
    // Progress is capped at one.
    assert_eq!(t.progress(), 1_000_000);
}

#[test]
fn test_simulator_state_start() {
    let mut s = SimulatorState::new();
    assert!(s.is_first_switch);
    assert_eq!(s.play_state, PlayState::Idle);

    // The first run is forced to SWIPE whatever was requested.
    s.start_playback(true, TransitionType::Fade, 75);
    assert_eq!(s.play_state, PlayState::TransitionIn);
    assert_eq!(s.transition.transition_type, TransitionType::Swipe);
    assert_eq!(s.transition.total_frames, 75);
    assert!(s.is_playing);
    assert!(!s.is_first_switch);

    // Later runs honor the request; without an intro the machine goes
    // straight to the loop transition.
    s.start_playback(false, TransitionType::Fade, 30);
    assert_eq!(s.play_state, PlayState::TransitionLoop);
    assert_eq!(s.transition.transition_type, TransitionType::Fade);
}

#[test]
fn test_simulator_state_reset() {
    let mut s = SimulatorState::new();
    s.appear_time_frames = 42;
    s.start_playback(true, TransitionType::Move, 75);
    s.frame_counter = 17;
    s.reset();
    assert_eq!(s.appear_time_frames, 42);
    assert_eq!(s.frame_counter, 0);
    assert_eq!(s.play_state, PlayState::Idle);
    assert!(!s.is_playing);
    // The forced-swipe latch is not re-armed by a reset.
    assert!(!s.is_first_switch);
}

#[test]
fn test_pause_resume() {
    let mut s = SimulatorState::new();
    s.start_playback(false, TransitionType::Swipe, 10);
    s.pause();
    assert!(!s.is_playing);
    s.resume();
    assert!(s.is_playing);
}

#[test]
fn test_animation_state_reset() {
    let mut a = AnimationState::default();
    a.frame_counter = 99;
    a.logo_alpha = 200;
    a.reset();
    assert_eq!(a.frame_counter, 0);
    assert_eq!(a.logo_alpha, 0);
    assert_eq!(a.arrow_direction, 1);
    assert!(!a.is_entry_complete());
}
