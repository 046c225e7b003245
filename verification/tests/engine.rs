//! Tests of the easing solver, the transition engine and the
//! animation clock.

use simulator::animation::AnimationController;
use simulator::easing::{cubic_bezier, ease_in, ease_in_out, ease_out, precompute_swipe_bezier};
use simulator::firmware_config::FirmwareConfig;
use simulator::overlay::OverlayRenderer;
use simulator::transition::TransitionRenderer;
use simulator::epconfig::TransitionType;

#[test]
fn test_cubic_bezier_boundaries() {
    // At t = 0, the curve value is 0.
    assert_eq!(cubic_bezier(0, 420_000, 0, 580_000, 1_000_000), 0);
    // At t = 1, the curve value is 1.
    assert_eq!(cubic_bezier(1_000_000, 420_000, 0, 580_000, 1_000_000), 1_000_000);
}

#[test]
fn test_ease_functions() {
    // ease_out at 0.5 is above 0.5 (fast start).
    assert!(ease_out(500_000) > 500_000);
    // ease_in at 0.5 is below 0.5 (slow start).
    assert!(ease_in(500_000) < 500_000);
    // ease_in_out at 0.5 is close to 0.5.
    assert!((ease_in_out(500_000) - 500_000).abs() < 100_000);
}

#[test]
fn test_precompute_swipe() {
    let values = precompute_swipe_bezier(100);
    assert_eq!(values.len(), 100);
    // First value should be near 0
    assert!(values[0] < 10);
    // Last value should be near height
    assert!(values[99] > 90);
}

#[test]
fn test_fade_alpha() {
    let config = FirmwareConfig::get_default();
    let renderer = TransitionRenderer::new(config);

    // Start: alpha = 0
    assert_eq!(renderer.calculate_fade_alpha(0), 0);
    // Middle of phase 1: alpha ~127
    let alpha = renderer.calculate_fade_alpha(166_000);
    assert!(alpha > 100 && alpha < 150);
    // End of phase 1 / start of phase 2: alpha = 255
    assert_eq!(renderer.calculate_fade_alpha(333_000), 255);
    // Phase 2: alpha = 255
    assert_eq!(renderer.calculate_fade_alpha(500_000), 255);
    // End of phase 3: alpha = 0
    assert_eq!(renderer.calculate_fade_alpha(1_000_000), 0);
}

#[test]
fn test_fade_alpha_shape() {
    let config = FirmwareConfig::get_default();
    let renderer = TransitionRenderer::new(config);
    // Non-decreasing through In and Hold, non-increasing from Out on.
    let mut prev = 0u8;
    for p in (0..667_000u32).step_by(1000) {
        let a = renderer.calculate_fade_alpha(p);
        assert!(a >= prev);
        prev = a;
    }
    let mut prev = 255u8;
    for p in (667_000..1_050_000u32).step_by(1000) {
        let a = renderer.calculate_fade_alpha(p);
        assert!(a <= prev);
        prev = a;
    }
}

#[test]
fn test_move_offset() {
    let config = FirmwareConfig::get_default();
    let width = config.overlay_width() as i32;
    let renderer = TransitionRenderer::new(config);

    // Start: x = width (from right)
    assert_eq!(renderer.calculate_move_offset(0), width);
    // Phase 2: x = 0
    assert_eq!(renderer.calculate_move_offset(500_000), 0);
    // End: x = -width (to left)
    assert_eq!(renderer.calculate_move_offset(1_000_000), -width);
}

#[test]
fn test_swipe_progress() {
    let config = FirmwareConfig::get_default();
    let renderer = TransitionRenderer::new(config);

    // Start: 0
    assert_eq!(renderer.calculate_swipe_progress(0), 0);
    // Phase 2: 1
    assert_eq!(renderer.calculate_swipe_progress(500_000), 1_000_000);
    // End: 0
    assert_eq!(renderer.calculate_swipe_progress(1_000_000), 0);
    // Always within the unit interval.
    for p in (0..1_100_000u32).step_by(7000) {
        assert!(renderer.calculate_swipe_progress(p) <= 1_000_000);
    }
}

#[test]
fn test_swipe_bezier_values() {
    let config = FirmwareConfig::get_default();
    let renderer = TransitionRenderer::new(config);
    let height = config.overlay_height();
    for y in 0..height {
        let v = renderer.get_swipe_bezier_value(y);
        assert!(0 <= v && v <= height as i32);
    }
    // Past the overlay the offset is zero.
    assert_eq!(renderer.get_swipe_bezier_value(height + 5), 0);
}

#[test]
fn test_transition_names() {
    assert_eq!(TransitionRenderer::get_transition_name(TransitionType::Fade), "fade");
    assert_eq!(TransitionRenderer::get_transition_name(TransitionType::Move), "move");
    assert_eq!(TransitionRenderer::get_transition_name(TransitionType::Swipe), "swipe");
    assert_eq!(TransitionRenderer::get_transition_name(TransitionType::NoEffect), "none");
}

#[test]
fn test_entry_offset() {
    let config = FirmwareConfig::get_default();
    let renderer = OverlayRenderer::new(config);

    // At start (progress=0), offset = height
    let offset = renderer.calculate_entry_offset(0);
    assert_eq!(offset, 640);

    // At end (progress=1), offset = 0
    let offset = renderer.calculate_entry_offset(1_000_000);
    assert_eq!(offset, 0);
}

#[test]
fn test_color_fade() {
    let config = FirmwareConfig::get_default();
    let renderer = OverlayRenderer::new(config);

    // Before start frame
    assert_eq!(renderer.calculate_color_fade_radius(10), 0);

    // After start frame (15), per frame = 10
    assert_eq!(renderer.calculate_color_fade_radius(16), 10);
    assert_eq!(renderer.calculate_color_fade_radius(17), 20);

    // Should cap at end_value (192)
    assert_eq!(renderer.calculate_color_fade_radius(100), 192);
}

#[test]
fn test_logo_alpha() {
    let config = FirmwareConfig::get_default();
    let renderer = OverlayRenderer::new(config);
    // Start frame 30, 5 alpha per frame, saturating at 255.
    assert_eq!(renderer.calculate_logo_alpha(29), 0);
    assert_eq!(renderer.calculate_logo_alpha(31), 5);
    assert_eq!(renderer.calculate_logo_alpha(40), 50);
    assert_eq!(renderer.calculate_logo_alpha(200), 255);
}

#[test]
fn test_bar_width() {
    let config = FirmwareConfig::get_default();
    let renderer = OverlayRenderer::new(config);
    // Before the sweep starts, zero; after it finishes, the target.
    assert_eq!(renderer.calculate_bar_width(79, 80, 40, 280), 0);
    assert_eq!(renderer.calculate_bar_width(120, 80, 40, 280), 280);
    assert_eq!(renderer.calculate_bar_width(500, 80, 40, 280), 280);
    // During the sweep the width never exceeds the target.
    for frame in 80..120 {
        assert!(renderer.calculate_bar_width(frame, 80, 40, 280) <= 280);
    }
}

#[test]
fn test_typewriter() {
    let config = FirmwareConfig::get_default();
    let renderer = OverlayRenderer::new(config);

    // Name: starts at frame 30, 3 frames per char
    assert_eq!(renderer.calculate_typewriter_chars(29, 10, 30, 3), 0);
    assert_eq!(renderer.calculate_typewriter_chars(30, 10, 30, 3), 1);
    assert_eq!(renderer.calculate_typewriter_chars(33, 10, 30, 3), 2);
    assert_eq!(renderer.calculate_typewriter_chars(100, 10, 30, 3), 10); // capped
}

#[test]
fn test_typewriter_monotone() {
    let config = FirmwareConfig::get_default();
    let renderer = OverlayRenderer::new(config);
    let mut prev = 0usize;
    for frame in 0..300 {
        let chars = renderer.calculate_typewriter_chars(frame, 24, 30, 3);
        assert!(chars >= prev);
        assert!(chars <= 24);
        prev = chars;
    }
}

#[test]
fn test_animation_update() {
    let config = FirmwareConfig::get_default();
    let controller = AnimationController::new(config);
    let mut state = controller.reset();

    // Update a few frames
    for _ in 0..50 {
        controller.update(&mut state, 8, 16, 5, 20);
    }

    assert_eq!(state.frame_counter, 50);
    // Entry should be complete after 50 frames
    assert!(state.is_entry_complete());
}

#[test]
fn test_animation_arrow_band() {
    let config = FirmwareConfig::get_default();
    let controller = AnimationController::new(config);
    let mut state = controller.reset();
    // After every tick the arrow offset stays in (0, 36].
    for _ in 0..200 {
        controller.update(&mut state, 8, 16, 5, 20);
        assert!(state.arrow_y > 0 && state.arrow_y <= 36);
    }
}

#[test]
fn test_animation_clamps() {
    let config = FirmwareConfig::get_default();
    let controller = AnimationController::new(config);
    let mut state = controller.reset();
    for _ in 0..500 {
        controller.update(&mut state, 8, 16, 5, 20);
        assert!(state.name_chars <= 8);
        assert!(state.code_chars <= 16);
        assert!(state.staff_chars <= 5);
        assert!(state.aux_chars <= 20);
        assert!(state.color_fade_radius <= 192);
        assert!(state.entry_progress <= 1_000_000);
    }
    // Long after the start everything has saturated.
    assert_eq!(state.name_chars, 8);
    assert_eq!(state.color_fade_radius, 192);
    assert_eq!(state.logo_alpha, 255);
    assert_eq!(state.ak_bar_width, 280);
    assert_eq!(state.entry_progress, 1_000_000);
    assert_eq!(state.entry_y_offset, 0);
}
