//! Per-frame derivation of every overlay animation value: typewriter
//! reveal, e-ink cycling, color/logo fades, bar sweeps, the scrolling
//! arrow and the entry slide-in.

use vstd::prelude::*;

use crate::easing::{ease_in_out, ease_in_out_value, mul_bounds, scale_by_unit_bounds, UNIT};
use crate::firmware_config::FirmwareConfig;
use crate::state::{AnimationState, EinkState, PROGRESS_ONE};

verus! {

/// Height in pixels of the scrolling arrow texture; the offset wraps
/// back to this when it reaches zero.
pub const ARROW_HEIGHT: i32 = 36;

/// Characters revealed at `frame`: none before `start`, then one more
/// every `per_char` frames, never beyond `len`.
pub open spec fn spec_typewriter_chars(frame: int, start: int, per_char: int, len: int) -> int {
    if frame < start {
        0
    } else {
        let chars = (frame - start) / per_char + 1;
        if chars >= len {
            len
        } else {
            chars
        }
    }
}

/// Color-fade radius at `frame`: zero before `start`, then growing by
/// `per_frame` each frame, saturating at `end_value`.
pub open spec fn spec_color_fade_radius(frame: int, start: int, per_frame: int, end_value: int) -> int {
    if frame < start {
        0
    } else {
        let v = (frame - start) * per_frame;
        if v >= end_value {
            end_value
        } else {
            v
        }
    }
}

/// Logo alpha at `frame`: zero before `start`, then growing by
/// `per_frame` each frame, saturating at 255.
pub open spec fn spec_logo_alpha(frame: int, start: int, per_frame: int) -> int {
    if frame < start {
        0
    } else {
        let v = (frame - start) * per_frame;
        if v >= 255 {
            255
        } else {
            v
        }
    }
}

/// Swept width at `frame` of a bar that eases in-out from 0 to
/// `target` over `frame_count` frames starting at `start`.
pub open spec fn spec_bar_width(frame: int, start: int, frame_count: int, target: int) -> int {
    if frame < start {
        0
    } else if frame - start >= frame_count {
        target
    } else {
        ease_in_out_value((frame - start) * (UNIT as int) / frame_count) * target / (UNIT as int)
    }
}

/// The arrow offset after one tick: it moves up by `incr` and wraps to
/// `ARROW_HEIGHT` when it would leave the band.
pub open spec fn spec_arrow_y(y: int, incr: int) -> int {
    if y - incr <= 0 {
        ARROW_HEIGHT as int
    } else {
        y - incr
    }
}

/// Entry slide-in progress (millionths) at `frame` of a slide lasting
/// `total` frames.
pub open spec fn spec_entry_progress(frame: int, total: int) -> int {
    if frame >= total {
        UNIT as int
    } else {
        ease_in_out_value(frame * (UNIT as int) / total)
    }
}

/// Entry slide-in y-offset at `frame` for an overlay `height` pixels
/// tall.
pub open spec fn spec_entry_y_offset(frame: int, total: int, height: int) -> int {
    if frame >= total {
        0
    } else {
        ((UNIT as int) - spec_entry_progress(frame, total)) * height / (UNIT as int)
    }
}

/// The animation state after one clock tick: the frame counter moves
/// to `frame`, and every derived value is recomputed for it. The entry
/// slide-in stops being recomputed once it has clamped at one.
pub open spec fn spec_clock_update(
    cfg: FirmwareConfig,
    s: AnimationState,
    name_len: int,
    code_len: int,
    staff_len: int,
    aux_len: int,
) -> AnimationState {
    let frame = s.frame_counter + 1;
    let a = cfg.animation;
    AnimationState {
        frame_counter: (s.frame_counter + 1) as u32,
        name_chars: spec_typewriter_chars(
            frame,
            a.typewriter.name.start_frame as int,
            a.typewriter.name.frame_per_char as int,
            name_len,
        ) as usize,
        code_chars: spec_typewriter_chars(
            frame,
            a.typewriter.code.start_frame as int,
            a.typewriter.code.frame_per_char as int,
            code_len,
        ) as usize,
        staff_chars: spec_typewriter_chars(
            frame,
            a.typewriter.staff.start_frame as int,
            a.typewriter.staff.frame_per_char as int,
            staff_len,
        ) as usize,
        aux_chars: spec_typewriter_chars(
            frame,
            a.typewriter.aux.start_frame as int,
            a.typewriter.aux.frame_per_char as int,
            aux_len,
        ) as usize,
        barcode_state: EinkState::spec_from_frame(
            frame,
            a.eink.barcode.start_frame as int,
            a.eink.barcode.frame_per_state as int,
        ),
        classicon_state: EinkState::spec_from_frame(
            frame,
            a.eink.classicon.start_frame as int,
            a.eink.classicon.frame_per_state as int,
        ),
        color_fade_radius: spec_color_fade_radius(
            frame,
            a.color_fade.start_frame as int,
            a.color_fade.value_per_frame as int,
            a.color_fade.end_value as int,
        ) as u32,
        logo_alpha: spec_logo_alpha(
            frame,
            a.logo_fade.start_frame as int,
            a.logo_fade.value_per_frame as int,
        ) as u8,
        ak_bar_width: spec_bar_width(
            frame,
            a.bars_lines.ak_bar.start_frame as int,
            a.bars_lines.ak_bar.frame_count as int,
            a.bars_lines.line_width as int,
        ) as u32,
        upper_line_width: spec_bar_width(
            frame,
            a.bars_lines.upper_line.start_frame as int,
            a.bars_lines.upper_line.frame_count as int,
            a.bars_lines.line_width as int,
        ) as u32,
        lower_line_width: spec_bar_width(
            frame,
            a.bars_lines.lower_line.start_frame as int,
            a.bars_lines.lower_line.frame_count as int,
            a.bars_lines.line_width as int,
        ) as u32,
        arrow_y: spec_arrow_y(s.arrow_y as int, a.arrow.y_incr_per_frame as int) as i32,
        arrow_direction: s.arrow_direction,
        entry_progress: if s.entry_progress >= PROGRESS_ONE {
            s.entry_progress
        } else {
            spec_entry_progress(frame, a.entry.total_frames as int) as u32
        },
        entry_y_offset: if s.entry_progress >= PROGRESS_ONE {
            s.entry_y_offset
        } else {
            spec_entry_y_offset(
                frame,
                a.entry.total_frames as int,
                cfg.layout.overlay.height as int,
            ) as i32
        },
        entry_started: s.entry_started,
    }
}

/// Characters revealed at `frame` for a text of `text_len` characters.
pub fn calculate_typewriter_chars(frame: u32, text_len: usize, start_frame: u32, frame_per_char: u32) -> (r: usize)
    requires
        frame_per_char > 0,
    ensures
        r == spec_typewriter_chars(
            frame as int,
            start_frame as int,
            frame_per_char as int,
            text_len as int,
        ),
        r <= text_len,
{
    if frame < start_frame {
        return 0;
    }
    let elapsed = frame - start_frame;
    let chars: u64 = (elapsed / frame_per_char) as u64 + 1;
    if chars >= text_len as u64 {
        text_len
    } else {
        chars as usize
    }
}

/// Color-fade radius at `frame`.
pub fn calculate_color_fade_radius_at(frame: u32, start: u32, per_frame: u32, end_value: u32) -> (r: u32)
    ensures
        r == spec_color_fade_radius(frame as int, start as int, per_frame as int, end_value as int),
        r <= end_value,
{
    if frame < start {
        return 0;
    }
    let elapsed = frame - start;
    proof {
        mul_bounds(elapsed as int, per_frame as int, 0xffff_ffff, 0xffff_ffff);
    }
    let v: u64 = (elapsed as u64) * (per_frame as u64);
    if v >= end_value as u64 {
        end_value
    } else {
        v as u32
    }
}

/// Logo alpha at `frame`.
pub fn calculate_logo_alpha_at(frame: u32, start: u32, per_frame: u32) -> (r: u8)
    ensures
        r == spec_logo_alpha(frame as int, start as int, per_frame as int),
{
    if frame < start {
        return 0;
    }
    let elapsed = frame - start;
    proof {
        mul_bounds(elapsed as int, per_frame as int, 0xffff_ffff, 0xffff_ffff);
    }
    let v: u64 = (elapsed as u64) * (per_frame as u64);
    if v >= 255 {
        255
    } else {
        v as u8
    }
}

/// Swept bar width at `frame`.
pub fn calculate_bar_width_at(frame: u32, start: u32, frame_count: u32, target: u32) -> (r: u32)
    requires
        frame_count > 0,
    ensures
        r == spec_bar_width(frame as int, start as int, frame_count as int, target as int),
        r <= target,
{
    if frame < start {
        return 0;
    }
    let elapsed = frame - start;
    if elapsed >= frame_count {
        return target;
    }
    let pp: i64 = (elapsed as i64) * UNIT / (frame_count as i64);
    let eased: i64 = ease_in_out(pp);
    proof {
        scale_by_unit_bounds(eased as int, target as int);
        mul_bounds(eased as int, target as int, UNIT as int, target as int);
    }
    ((eased * (target as i64)) / UNIT) as u32
}

/// Entry slide-in progress (millionths) and y-offset at `frame`.
pub fn calculate_entry_values(frame: u32, total: u32, height: u32) -> (r: (u32, i32))
    requires
        total > 0,
        height <= 0x10000,
    ensures
        r.0 == spec_entry_progress(frame as int, total as int),
        r.1 == spec_entry_y_offset(frame as int, total as int, height as int),
        r.0 <= PROGRESS_ONE,
        0 <= r.1 <= height,
{
    if frame >= total {
        return (PROGRESS_ONE, 0);
    }
    let pp: i64 = (frame as i64) * UNIT / (total as i64);
    let eased: i64 = ease_in_out(pp);
    proof {
        scale_by_unit_bounds((UNIT - eased) as int, height as int);
        mul_bounds((UNIT - eased) as int, height as int, UNIT as int, height as int);
    }
    let y: i64 = ((UNIT - eased) * (height as i64)) / UNIT;
    (eased as u32, y as i32)
}

/// The arrow offset after one tick stays in `(0, ARROW_HEIGHT]`
/// whenever the increment is not negative and the offset was not
/// already above the band.
pub proof fn arrow_y_stays_in_band(y: int, incr: int)
    requires
        0 <= incr,
        y <= ARROW_HEIGHT,
    ensures
        0 < spec_arrow_y(y, incr) <= ARROW_HEIGHT,
{
}

/// Revealed characters never exceed the text length and never shrink
/// as frames advance, for every text and every timing pair.
pub proof fn typewriter_chars_monotone(f1: int, f2: int, start: int, per_char: int, len: int)
    requires
        per_char > 0,
        0 <= len,
        f1 <= f2,
    ensures
        spec_typewriter_chars(f1, start, per_char, len) <= spec_typewriter_chars(
            f2,
            start,
            per_char,
            len,
        ),
        spec_typewriter_chars(f1, start, per_char, len) <= len,
{
    if f1 >= start {
        vstd::arithmetic::div_mod::lemma_div_is_ordered(f1 - start, f2 - start, per_char);
        vstd::arithmetic::div_mod::lemma_div_pos_is_pos(f1 - start, per_char);
    }
    if f2 >= start && f1 < start {
        vstd::arithmetic::div_mod::lemma_div_pos_is_pos(f2 - start, per_char);
    }
}

/// The saturating color-fade radius never shrinks as frames advance
/// and never exceeds its end value.
pub proof fn color_fade_radius_monotone(f1: int, f2: int, start: int, per: int, end: int)
    requires
        0 <= per,
        0 <= end,
        f1 <= f2,
    ensures
        spec_color_fade_radius(f1, start, per, end) <= spec_color_fade_radius(f2, start, per, end),
        spec_color_fade_radius(f1, start, per, end) <= end,
{
    if f1 >= start {
        mul_bounds(f1 - start, per, f2 - start, per);
    }
    if f2 >= start && f1 < start {
        mul_bounds(0, per, f2 - start, per);
    }
}

/// The saturating logo alpha never shrinks as frames advance and never
/// exceeds 255.
pub proof fn logo_alpha_monotone(f1: int, f2: int, start: int, per: int)
    requires
        0 <= per,
        f1 <= f2,
    ensures
        spec_logo_alpha(f1, start, per) <= spec_logo_alpha(f2, start, per),
        spec_logo_alpha(f1, start, per) <= 255,
{
    if f1 >= start {
        mul_bounds(f1 - start, per, f2 - start, per);
    }
    if f2 >= start && f1 < start {
        mul_bounds(0, per, f2 - start, per);
    }
}

/// Animation clock: advances the overlay animation one frame per tick
/// while the machine is in the `Loop` state.
pub struct AnimationController {
    /// Timing table the derivations read.
    pub config: FirmwareConfig,
}

impl AnimationController {
    /// Controller over the given timing table.
    pub fn new(config: FirmwareConfig) -> (r: Self)
        ensures
            r.config == config,
    {
        AnimationController { config }
    }

    /// A fresh start-of-run animation state.
    pub fn reset(&self) -> (r: AnimationState)
        ensures
            r == AnimationState::spec_initial(),
    {
        let mut state = AnimationState::default();
        state.arrow_direction = 1;
        state
    }

    /// Advance the animation by one frame: increments the frame counter
    /// and recomputes every derived value for it, with each typewriter
    /// count clamped to its text's length.
    pub fn update(
        &self,
        state: &mut AnimationState,
        name_len: usize,
        code_len: usize,
        staff_len: usize,
        aux_len: usize,
    )
        requires
            self.config.wf(),
            old(state).frame_counter < 0xffff_ffffu32,
            0 <= old(state).arrow_y <= ARROW_HEIGHT,
        ensures
            *final(state) == spec_clock_update(
                self.config,
                *old(state),
                name_len as int,
                code_len as int,
                staff_len as int,
                aux_len as int,
            ),
            0 < final(state).arrow_y <= ARROW_HEIGHT,
    {
        state.frame_counter = state.frame_counter + 1;
        let frame = state.frame_counter;
        let a = &self.config.animation;

        // Entry slide-in, until it clamps at one.
        if !state.is_entry_complete() {
            let (progress, y_offset) = calculate_entry_values(
                frame,
                a.entry.total_frames,
                self.config.layout.overlay.height,
            );
            state.entry_progress = progress;
            state.entry_y_offset = y_offset;
        }

        // Typewriter reveals.
        state.name_chars = calculate_typewriter_chars(
            frame,
            name_len,
            a.typewriter.name.start_frame,
            a.typewriter.name.frame_per_char,
        );
        state.code_chars = calculate_typewriter_chars(
            frame,
            code_len,
            a.typewriter.code.start_frame,
            a.typewriter.code.frame_per_char,
        );
        state.staff_chars = calculate_typewriter_chars(
            frame,
            staff_len,
            a.typewriter.staff.start_frame,
            a.typewriter.staff.frame_per_char,
        );
        state.aux_chars = calculate_typewriter_chars(
            frame,
            aux_len,
            a.typewriter.aux.start_frame,
            a.typewriter.aux.frame_per_char,
        );

        // E-ink cycles.
        state.barcode_state = EinkState::from_frame(
            frame,
            a.eink.barcode.start_frame,
            a.eink.barcode.frame_per_state,
        );
        state.classicon_state = EinkState::from_frame(
            frame,
            a.eink.classicon.start_frame,
            a.eink.classicon.frame_per_state,
        );

        // Saturating fades.
        state.color_fade_radius = calculate_color_fade_radius_at(
            frame,
            a.color_fade.start_frame,
            a.color_fade.value_per_frame,
            a.color_fade.end_value,
        );
        state.logo_alpha = calculate_logo_alpha_at(
            frame,
            a.logo_fade.start_frame,
            a.logo_fade.value_per_frame,
        );

        // Bar and line sweeps.
        let line_width = a.bars_lines.line_width;
        state.ak_bar_width = calculate_bar_width_at(
            frame,
            a.bars_lines.ak_bar.start_frame,
            a.bars_lines.ak_bar.frame_count,
            line_width,
        );
        state.upper_line_width = calculate_bar_width_at(
            frame,
            a.bars_lines.upper_line.start_frame,
            a.bars_lines.upper_line.frame_count,
            line_width,
        );
        state.lower_line_width = calculate_bar_width_at(
            frame,
            a.bars_lines.lower_line.start_frame,
            a.bars_lines.lower_line.frame_count,
            line_width,
        );

        // Scrolling arrow: moves up, wrapping back to the full height.
        let incr = a.arrow.y_incr_per_frame;
        if state.arrow_y - incr <= 0 {
            state.arrow_y = ARROW_HEIGHT;
        } else {
            state.arrow_y = state.arrow_y - incr;
        }
    }
}

} // verus!
