//! End-to-end tests of the playback machine: frame conversion,
//! command handling, configuration loading and full tick-driven runs.

use simulator::epconfig::{
    ArknightsOverlayOptions, EPConfig, Overlay, OverlayType, ScreenType, Transition,
    TransitionOptions, TransitionType,
};
use simulator::machine::{microseconds_to_frames, Simulator, TickInput};
use simulator::protocol::ControlCommand;
use simulator::state::PlayState;

fn tick_input(exhausted: bool) -> TickInput {
    TickInput {
        intro_frame_duration_us: 40_000,
        loop_frame_duration_us: 40_000,
        intro_exhausted: exhausted,
    }
}

#[test]
fn test_microseconds_to_frames() {
    // 1 second at 50fps = 50 frames
    assert_eq!(microseconds_to_frames(1_000_000, 50), 50);
    // 0.5 seconds at 50fps = 25 frames
    assert_eq!(microseconds_to_frames(500_000, 50), 25);
    // Very small value should return at least 1
    assert_eq!(microseconds_to_frames(1, 50), 1);
}

#[test]
fn test_screen_dimensions() {
    assert_eq!(ScreenType::S360x640.dimensions(), (360, 640));
    assert_eq!(ScreenType::S480x854.dimensions(), (480, 854));
    assert_eq!(ScreenType::S720x1080.dimensions(), (720, 1080));
}

#[test]
fn epconfig_test_default_config() {
    let config = EPConfig::default();
    assert_eq!(config.version, 1);
    assert_eq!(config.screen, ScreenType::S360x640);
}

#[test]
fn firmware_config_test_default_config() {
    let config = simulator::firmware_config::FirmwareConfig::get_default();
    assert_eq!(config.fps(), 50);
    assert_eq!(config.overlay_width(), 360);
    assert_eq!(config.overlay_height(), 640);
}

fn sample_config() -> EPConfig {
    let mut config = EPConfig::default();
    config.transition_in = Some(Transition {
        transition_type: TransitionType::Fade,
        options: Some(TransitionOptions {
            duration: 500_000,
            image: String::new(),
            background_color: String::from("#000000"),
        }),
    });
    config.transition_loop = Some(Transition {
        transition_type: TransitionType::Move,
        options: Some(TransitionOptions {
            duration: 200_000,
            image: String::new(),
            background_color: String::from("#000000"),
        }),
    });
    let mut options = ArknightsOverlayOptions::default();
    options.appear_time = 1_000_000;
    config.overlay = Some(Overlay {
        overlay_type: OverlayType::Arknights,
        arknights: Some(options),
        image: None,
    });
    config
}

#[test]
fn test_load_config() {
    let mut sim = Simulator::new();
    let eff = sim.load_config(sample_config());
    assert!(eff.reset_videos);
    // One second of appear time at 50 Hz.
    assert_eq!(sim.state.appear_time_frames, 50);
    // The selections follow the material's transitions.
    assert_eq!(sim.selected_transition_in, 0); // fade
    assert_eq!(sim.selected_transition_loop, 1); // move
    // Typewriter lengths come from the overlay's texts.
    assert_eq!(sim.name_len, "OPERATOR".chars().count());
    assert_eq!(sim.code_len, "ARKNIGHTS - UNK0".chars().count());
    assert_eq!(sim.staff_len, "STAFF".chars().count());
    // Per-phase duration 500000us at 50 Hz = 25 frames, three phases.
    assert_eq!(sim.get_transition_frames(true), 75);
    // Per-phase duration 200000us at 50 Hz = 10 frames, three phases.
    assert_eq!(sim.get_transition_frames(false), 30);
}

#[test]
fn test_first_transition_forced_swipe() {
    let mut sim = Simulator::new();
    sim.load_config(sample_config());

    // First ever run: forced to SWIPE although fade is selected.
    let eff = sim.handle_command(ControlCommand::Play, true);
    assert!(eff.seek_intro_to_start && eff.seek_loop_to_start);
    assert_eq!(sim.state.play_state, PlayState::TransitionIn);
    assert_eq!(sim.state.transition.transition_type, TransitionType::Swipe);

    // A second run after a reset honors the configured kind.
    sim.handle_command(ControlCommand::Reset, true);
    assert_eq!(sim.state.play_state, PlayState::Idle);
    sim.handle_command(ControlCommand::Play, true);
    assert_eq!(sim.state.transition.transition_type, TransitionType::Fade);
}

#[test]
fn test_full_playback_run() {
    let mut sim = Simulator::new();
    sim.handle_command(ControlCommand::Play, true);
    assert_eq!(sim.state.play_state, PlayState::TransitionIn);

    // Drive the machine by ticking alone, with an intro that lasts
    // three video frames and an endless loop video. Record each state
    // change.
    let mut intro_frames_left = 3i32;
    let mut visited = vec![sim.state.play_state];
    for _ in 0..500 {
        let due = sim.intro_advance_due(40_000);
        let exhausted = if due {
            intro_frames_left -= 1;
            intro_frames_left < 0
        } else {
            false
        };
        sim.advance(&tick_input(exhausted));
        if *visited.last().unwrap() != sim.state.play_state {
            visited.push(sim.state.play_state);
        }
        if sim.state.play_state == PlayState::Loop {
            break;
        }
    }
    assert_eq!(
        visited,
        vec![
            PlayState::TransitionIn,
            PlayState::Intro,
            PlayState::TransitionLoop,
            PlayState::PreOpinfo,
            PlayState::Loop,
        ]
    );
}

#[test]
fn test_video_switch_latch() {
    let mut sim = Simulator::new();
    sim.handle_command(ControlCommand::Play, false);
    assert_eq!(sim.state.play_state, PlayState::TransitionLoop);
    assert_eq!(sim.state.transition.total_frames, 75);

    // The loop video is sought exactly once, when the Hold phase is
    // first observed.
    let mut switch_ticks = 0;
    while sim.state.play_state == PlayState::TransitionLoop {
        let eff = sim.advance(&tick_input(false));
        if eff.seek_loop_to_start && sim.state.play_state == PlayState::TransitionLoop {
            switch_ticks += 1;
            assert!(sim.state.transition.video_switched);
        }
    }
    assert_eq!(switch_ticks, 1);
    assert_eq!(sim.state.play_state, PlayState::PreOpinfo);
}

#[test]
fn test_reset_preserves_appear_time() {
    let mut sim = Simulator::new();
    sim.load_config(sample_config());
    assert_eq!(sim.state.appear_time_frames, 50);
    sim.handle_command(ControlCommand::Play, true);
    for _ in 0..20 {
        sim.advance(&tick_input(false));
    }
    assert!(sim.state.frame_counter > 0);

    let eff = sim.handle_command(ControlCommand::Reset, true);
    assert!(eff.reset_videos);
    assert_eq!(sim.state.appear_time_frames, 50);
    assert_eq!(sim.state.frame_counter, 0);
    assert_eq!(sim.state.animation.frame_counter, 0);
    assert_eq!(sim.state.play_state, PlayState::Idle);
    assert!(!sim.state.is_playing);
}

#[test]
fn test_pause_gates_ticks() {
    let mut sim = Simulator::new();
    sim.handle_command(ControlCommand::Play, false);
    sim.advance(&tick_input(false));
    let frame = sim.state.frame_counter;
    sim.handle_command(ControlCommand::Pause, false);
    sim.advance(&tick_input(false));
    sim.advance(&tick_input(false));
    assert_eq!(sim.state.frame_counter, frame);
    // Play resumes a paused run without restarting it.
    sim.handle_command(ControlCommand::Play, false);
    assert_ne!(sim.state.play_state, PlayState::Idle);
    sim.advance(&tick_input(false));
    assert_eq!(sim.state.frame_counter, frame + 1);
}

#[test]
fn test_seek_to_state() {
    let mut sim = Simulator::new();
    sim.handle_command(ControlCommand::SeekTo(5), false);
    assert_eq!(sim.state.play_state, PlayState::Loop);
    // An unknown identifier is ignored.
    sim.handle_command(ControlCommand::SeekTo(77), false);
    assert_eq!(sim.state.play_state, PlayState::Loop);
}

#[test]
fn test_set_transition_names() {
    let mut sim = Simulator::new();
    sim.set_transition("move", "swipe");
    assert_eq!(sim.selected_transition_in, 1);
    assert_eq!(sim.selected_transition_loop, 2);
    sim.set_transition("fade", "sparkle");
    assert_eq!(sim.selected_transition_in, 0);
    assert_eq!(sim.selected_transition_loop, 3);
}

#[test]
fn test_state_update_every_ten_ticks() {
    let mut sim = Simulator::new();
    sim.handle_command(ControlCommand::Play, false);
    let mut updates = 0;
    for _ in 0..40 {
        let eff = sim.advance(&tick_input(false));
        if eff.send_state_update {
            updates += 1;
        }
    }
    assert_eq!(updates, 4);
}

#[test]
fn test_loop_video_sync() {
    // A 25 fps loop video under a 50 Hz tick advances every other
    // tick, with no drift.
    let mut sim = Simulator::new();
    sim.handle_command(ControlCommand::Play, false);
    // Run the transition out (75 frames), then the single PreOpinfo
    // tick (appear time 0 goes straight to Loop).
    while sim.state.play_state != PlayState::Loop {
        sim.advance(&tick_input(false));
    }
    let mut advances = 0;
    for _ in 0..100 {
        let eff = sim.advance(&tick_input(false));
        if eff.advance_loop_frame {
            advances += 1;
        }
    }
    assert_eq!(advances, 50);
}
