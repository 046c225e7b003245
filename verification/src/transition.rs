//! Transition effect engine: FADE, MOVE and SWIPE.
//!
//! Each effect derives a blend parameter from a transition's progress
//! (millionths). A transition runs three equal-width phases — In, Hold,
//! Out — then is Done; the firmware's phase boundaries sit at `0.333`
//! and `0.667` of the whole.

use vstd::prelude::*;

use crate::easing::{
    ease_in, ease_in_out, ease_in_out_value, ease_in_value, ease_out, ease_out_value, mul_bounds,
    precompute_swipe_bezier, scale_by_unit_bounds, swipe_bezier_at, UNIT,
};
use crate::epconfig::TransitionType;
use crate::firmware_config::FirmwareConfig;
use crate::state::{TransitionPhase, PHASE_HOLD_START, PHASE_OUT_START, PROGRESS_ONE};

verus! {

/// Progress within the In phase rescaled to the unit interval,
/// in millionths.
pub open spec fn in_phase_progress(p: int) -> int {
    p * (UNIT as int) / (PHASE_HOLD_START as int)
}

/// Progress within the Out phase rescaled to the unit interval,
/// in millionths.
pub open spec fn out_phase_progress(p: int) -> int {
    (p - PHASE_OUT_START as int) * (UNIT as int) / (PHASE_HOLD_START as int)
}

/// FADE alpha at progress `p`: climbs linearly to 255 over the In
/// phase, holds at 255, falls linearly back to 0 over the Out phase,
/// and is 0 once done.
pub open spec fn spec_fade_alpha(p: int) -> int {
    match TransitionPhase::spec_from_progress(p) {
        TransitionPhase::PhaseIn => {
            let a = p * 255 / (PHASE_HOLD_START as int);
            if a >= 255 {
                255
            } else {
                a
            }
        },
        TransitionPhase::PhaseHold => 255,
        TransitionPhase::PhaseOut => {
            let a = (p - PHASE_OUT_START as int) * 255 / (PHASE_HOLD_START as int);
            if a >= 255 {
                0
            } else {
                255 - a
            }
        },
        TransitionPhase::PhaseDone => 0,
    }
}

/// MOVE x-offset at progress `p` for a surface `width` pixels wide:
/// eases out from `width` to 0, holds at 0, eases in from 0 to
/// `-width`, and rests at `-width`.
pub open spec fn spec_move_offset(p: int, width: int) -> int {
    match TransitionPhase::spec_from_progress(p) {
        TransitionPhase::PhaseIn => {
            let eased = ease_out_value(in_phase_progress(p));
            ((UNIT as int) - eased) * width / (UNIT as int)
        },
        TransitionPhase::PhaseHold => 0,
        TransitionPhase::PhaseOut => {
            let eased = ease_in_value(out_phase_progress(p));
            -(eased * width / (UNIT as int))
        },
        TransitionPhase::PhaseDone => -width,
    }
}

/// SWIPE sweep ratio at progress `p`, in millionths: eases in-out from
/// 0 to 1 over the In phase, holds at 1, eases back to 0 over the Out
/// phase, and is 0 once done.
pub open spec fn spec_swipe_progress(p: int) -> int {
    match TransitionPhase::spec_from_progress(p) {
        TransitionPhase::PhaseIn => ease_in_out_value(in_phase_progress(p)),
        TransitionPhase::PhaseHold => UNIT as int,
        TransitionPhase::PhaseOut => (UNIT as int) - ease_in_out_value(out_phase_progress(p)),
        TransitionPhase::PhaseDone => 0,
    }
}

/// Transition effect renderer: derives blend parameters from progress
/// and holds the precomputed per-scanline SWIPE offsets.
pub struct TransitionRenderer {
    /// Firmware configuration the offsets were computed for.
    pub config: FirmwareConfig,
    /// Precomputed eased x-offset per scanline of the overlay.
    pub swipe_bezier_values: Vec<i32>,
}

impl TransitionRenderer {
    /// The renderer's offsets match its configuration.
    pub open spec fn wf(self) -> bool {
        &&& self.config.wf()
        &&& self.swipe_bezier_values@.len() == self.config.layout.overlay.height
        &&& forall|i: int|
            0 <= i < self.swipe_bezier_values@.len() ==> self.swipe_bezier_values@[i]
                == swipe_bezier_at(i, self.config.layout.overlay.height as int)
    }

    /// Build a renderer for the given configuration, precomputing the
    /// SWIPE offsets for the overlay height.
    pub fn new(config: FirmwareConfig) -> (r: Self)
        requires
            config.wf(),
        ensures
            r.wf(),
            r.config == config,
    {
        let height = config.overlay_height();
        let swipe_bezier_values = precompute_swipe_bezier(height);
        TransitionRenderer { config, swipe_bezier_values }
    }

    /// Phase of a progress value in millionths.
    pub fn get_phase(&self, progress: u32) -> (r: TransitionPhase)
        ensures
            r == TransitionPhase::spec_from_progress(progress as int),
    {
        TransitionPhase::from_progress(progress)
    }

    /// FADE alpha for a progress value in millionths.
    pub fn calculate_fade_alpha(&self, progress: u32) -> (r: u8)
        ensures
            r == spec_fade_alpha(progress as int),
    {
        let phase = self.get_phase(progress);
        match phase {
            TransitionPhase::PhaseIn => {
                let a: u32 = (progress as u64 * 255 / (PHASE_HOLD_START as u64)) as u32;
                if a >= 255 {
                    255
                } else {
                    a as u8
                }
            },
            TransitionPhase::PhaseHold => 255,
            TransitionPhase::PhaseOut => {
                let a: u32 = ((progress - PHASE_OUT_START) as u64 * 255 / (
                PHASE_HOLD_START as u64)) as u32;
                if a >= 255 {
                    0
                } else {
                    255 - a as u8
                }
            },
            TransitionPhase::PhaseDone => 0,
        }
    }

    /// MOVE x-offset for a progress value in millionths; the overlay
    /// slides in from the right and out to the left.
    pub fn calculate_move_offset(&self, progress: u32) -> (r: i32)
        requires
            self.config.wf(),
        ensures
            r == spec_move_offset(progress as int, self.config.layout.overlay.width as int),
            -(self.config.layout.overlay.width as int) <= r
                <= self.config.layout.overlay.width as int,
    {
        let width = self.config.overlay_width();
        let phase = self.get_phase(progress);
        match phase {
            TransitionPhase::PhaseIn => {
                let pp: i64 = progress as i64 * UNIT / (PHASE_HOLD_START as i64);
                let eased: i64 = ease_out(pp);
                proof {
                    scale_by_unit_bounds((UNIT - eased) as int, width as int);
                    mul_bounds((UNIT - eased) as int, width as int, UNIT as int, width as int);
                }
                (((UNIT - eased) * (width as i64)) / UNIT) as i32
            },
            TransitionPhase::PhaseHold => 0,
            TransitionPhase::PhaseOut => {
                let pp: i64 = (progress - PHASE_OUT_START) as i64 * UNIT / (
                PHASE_HOLD_START as i64);
                let eased: i64 = ease_in(pp);
                proof {
                    scale_by_unit_bounds(eased as int, width as int);
                    mul_bounds(eased as int, width as int, UNIT as int, width as int);
                }
                -(((eased * (width as i64)) / UNIT) as i32)
            },
            TransitionPhase::PhaseDone => -(width as i32),
        }
    }

    /// SWIPE sweep ratio for a progress value, in millionths; always in
    /// `[0, PROGRESS_ONE]`.
    pub fn calculate_swipe_progress(&self, progress: u32) -> (r: u32)
        ensures
            r == spec_swipe_progress(progress as int),
            r <= PROGRESS_ONE,
    {
        let phase = self.get_phase(progress);
        match phase {
            TransitionPhase::PhaseIn => {
                let pp: i64 = progress as i64 * UNIT / (PHASE_HOLD_START as i64);
                ease_in_out(pp) as u32
            },
            TransitionPhase::PhaseHold => PROGRESS_ONE,
            TransitionPhase::PhaseOut => {
                let pp: i64 = (progress - PHASE_OUT_START) as i64 * UNIT / (
                PHASE_HOLD_START as i64);
                (UNIT - ease_in_out(pp)) as u32
            },
            TransitionPhase::PhaseDone => 0,
        }
    }

    /// Precomputed SWIPE x-offset of scanline `y`; 0 past the overlay.
    pub fn get_swipe_bezier_value(&self, y: u32) -> (r: i32)
        ensures
            (y as int) < self.swipe_bezier_values@.len() ==> r == self.swipe_bezier_values@[y as int],
            (y as int) >= self.swipe_bezier_values@.len() ==> r == 0,
    {
        if (y as usize) < self.swipe_bezier_values.len() {
            self.swipe_bezier_values[y as usize]
        } else {
            0
        }
    }

    /// The control-channel name of a transition kind.
    pub fn get_transition_name(transition_type: TransitionType) -> (r: &'static str)
        ensures
            transition_type == TransitionType::Fade ==> r@ == "fade"@,
            transition_type == TransitionType::Move ==> r@ == "move"@,
            transition_type == TransitionType::Swipe ==> r@ == "swipe"@,
            transition_type == TransitionType::NoEffect ==> r@ == "none"@,
    {
        match transition_type {
            TransitionType::Fade => "fade",
            TransitionType::Move => "move",
            TransitionType::Swipe => "swipe",
            TransitionType::NoEffect => "none",
        }
    }
}

/// The FADE alpha's shape over a transition: non-decreasing until the
/// Out phase, pinned at 255 through the Hold phase, and non-increasing
/// from the Out phase on.
pub proof fn fade_alpha_shape(p1: int, p2: int)
    requires
        0 <= p1 <= p2,
    ensures
        p2 < PHASE_OUT_START ==> spec_fade_alpha(p1) <= spec_fade_alpha(p2),
        PHASE_HOLD_START <= p1 < PHASE_OUT_START ==> spec_fade_alpha(p1) == 255,
        PHASE_OUT_START <= p1 ==> spec_fade_alpha(p1) >= spec_fade_alpha(p2),
{
    let b = PHASE_HOLD_START as int;
    if p2 < PHASE_OUT_START {
        if p2 < b {
            vstd::arithmetic::div_mod::lemma_div_is_ordered(p1 * 255, p2 * 255, b);
        } else if p1 < b {
            vstd::arithmetic::div_mod::lemma_div_pos_is_pos(p1 * 255, b);
        }
    }
    if PHASE_OUT_START <= p1 {
        if p2 < PROGRESS_ONE {
            vstd::arithmetic::div_mod::lemma_div_is_ordered(
                (p1 - PHASE_OUT_START as int) * 255,
                (p2 - PHASE_OUT_START as int) * 255,
                b,
            );
            vstd::arithmetic::div_mod::lemma_div_pos_is_pos((p1 - PHASE_OUT_START as int) * 255, b);
        } else {
            vstd::arithmetic::div_mod::lemma_div_pos_is_pos((p1 - PHASE_OUT_START as int) * 255, b);
        }
    }
}


/// The MOVE offset's endpoints, for every width: the overlay starts
/// fully off-screen right, sits centered through the Hold phase, and
/// rests fully off-screen left.
pub proof fn move_offset_endpoints(width: int)
    requires
        0 <= width,
    ensures
        spec_move_offset(0, width) == width,
        spec_move_offset(500_000, width) == 0,
        spec_move_offset(1_000_000, width) == -width,
{
    let u = UNIT as int;
    assert(in_phase_progress(0) == 0);
    assert(ease_out_value(0) == 0);
    assert((u - 0) * width == u * width);
    vstd::arithmetic::div_mod::lemma_div_multiples_vanish(width, u);
}

/// The SWIPE ratio's endpoints: hidden at the start, fully revealed
/// through the Hold phase, hidden again once done.
pub proof fn swipe_progress_endpoints()
    ensures
        spec_swipe_progress(0) == 0,
        spec_swipe_progress(500_000) == UNIT,
        spec_swipe_progress(1_000_000) == 0,
{
    assert(in_phase_progress(0) == 0);
    assert(ease_in_out_value(0) == 0);
}

} // verus!

