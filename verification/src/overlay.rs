//! Overlay renderer helpers: the per-frame values a renderer needs to
//! paint the overlay, derived from the firmware timing table.

use vstd::prelude::*;

use crate::animation::{
    calculate_bar_width_at, calculate_color_fade_radius_at, calculate_logo_alpha_at,
    calculate_typewriter_chars, spec_arrow_y, spec_bar_width, spec_color_fade_radius,
    spec_logo_alpha, spec_typewriter_chars, ARROW_HEIGHT,
};
use crate::easing::{ease_in_out, ease_in_out_value, mul_bounds, scale_by_unit_bounds, UNIT};
use crate::firmware_config::FirmwareConfig;
use crate::state::AnimationState;

verus! {

/// Derives overlay pixel values from the timing table; the drawing
/// itself happens outside the library.
pub struct OverlayRenderer {
    /// Timing table the derivations read.
    pub config: FirmwareConfig,
}

impl OverlayRenderer {
    /// Renderer over the given timing table.
    pub fn new(config: FirmwareConfig) -> (r: Self)
        ensures
            r.config == config,
    {
        OverlayRenderer { config }
    }

    /// Overlay width and height in pixels.
    pub fn dimensions(&self) -> (r: (u32, u32))
        ensures
            r.0 == self.config.layout.overlay.width,
            r.1 == self.config.layout.overlay.height,
    {
        (self.config.overlay_width(), self.config.overlay_height())
    }

    /// Entry y-offset for a slide-in progress value (millionths): the
    /// eased remainder of the overlay height.
    pub fn calculate_entry_offset(&self, progress: u32) -> (r: i32)
        requires
            self.config.wf(),
        ensures
            r == ((UNIT as int) - ease_in_out_value(progress as int))
                * (self.config.layout.overlay.height as int) / (UNIT as int),
            0 <= r <= self.config.layout.overlay.height,
    {
        let height = self.config.overlay_height();
        let eased: i64 = ease_in_out(progress as i64);
        proof {
            scale_by_unit_bounds((UNIT - eased) as int, height as int);
            mul_bounds((UNIT - eased) as int, height as int, UNIT as int, height as int);
        }
        (((UNIT - eased) * (height as i64)) / UNIT) as i32
    }

    /// Color-fade radius at `frame`.
    pub fn calculate_color_fade_radius(&self, frame: u32) -> (r: u32)
        ensures
            r == spec_color_fade_radius(
                frame as int,
                self.config.animation.color_fade.start_frame as int,
                self.config.animation.color_fade.value_per_frame as int,
                self.config.animation.color_fade.end_value as int,
            ),
            r <= self.config.animation.color_fade.end_value,
    {
        calculate_color_fade_radius_at(
            frame,
            self.config.color_fade_start_frame(),
            self.config.color_fade_value_per_frame(),
            self.config.color_fade_end_value(),
        )
    }

    /// Logo alpha at `frame`.
    pub fn calculate_logo_alpha(&self, frame: u32) -> (r: u8)
        ensures
            r == spec_logo_alpha(
                frame as int,
                self.config.animation.logo_fade.start_frame as int,
                self.config.animation.logo_fade.value_per_frame as int,
            ),
    {
        calculate_logo_alpha_at(
            frame,
            self.config.logo_fade_start_frame(),
            self.config.logo_fade_value_per_frame(),
        )
    }

    /// Swept bar width at `frame` for an element easing from 0 to
    /// `target_width` over `frame_count` frames.
    pub fn calculate_bar_width(&self, frame: u32, start_frame: u32, frame_count: u32, target_width: u32) -> (r: u32)
        requires
            frame_count > 0,
        ensures
            r == spec_bar_width(
                frame as int,
                start_frame as int,
                frame_count as int,
                target_width as int,
            ),
            r <= target_width,
    {
        calculate_bar_width_at(frame, start_frame, frame_count, target_width)
    }

    /// Characters revealed at `frame` of a text `text_len` characters
    /// long.
    pub fn calculate_typewriter_chars(&self, frame: u32, text_len: usize, start_frame: u32, frame_per_char: u32) -> (r: usize)
        requires
            frame_per_char > 0,
        ensures
            r == spec_typewriter_chars(
                frame as int,
                start_frame as int,
                frame_per_char as int,
                text_len as int,
            ),
            r <= text_len,
    {
        calculate_typewriter_chars(frame, text_len, start_frame, frame_per_char)
    }

    /// Recompute the typewriter counts, fades, bar sweeps and arrow
    /// offset for the state's current frame counter (the counter itself
    /// is not advanced here).
    pub fn update_animation_state(
        &self,
        state: &mut AnimationState,
        name_len: usize,
        code_len: usize,
        staff_len: usize,
        aux_len: usize,
    )
        requires
            self.config.wf(),
            0 <= old(state).arrow_y <= ARROW_HEIGHT,
        ensures
            *final(state) == (AnimationState {
                name_chars: spec_typewriter_chars(
                    old(state).frame_counter as int,
                    self.config.animation.typewriter.name.start_frame as int,
                    self.config.animation.typewriter.name.frame_per_char as int,
                    name_len as int,
                ) as usize,
                code_chars: spec_typewriter_chars(
                    old(state).frame_counter as int,
                    self.config.animation.typewriter.code.start_frame as int,
                    self.config.animation.typewriter.code.frame_per_char as int,
                    code_len as int,
                ) as usize,
                staff_chars: spec_typewriter_chars(
                    old(state).frame_counter as int,
                    self.config.animation.typewriter.staff.start_frame as int,
                    self.config.animation.typewriter.staff.frame_per_char as int,
                    staff_len as int,
                ) as usize,
                aux_chars: spec_typewriter_chars(
                    old(state).frame_counter as int,
                    self.config.animation.typewriter.aux.start_frame as int,
                    self.config.animation.typewriter.aux.frame_per_char as int,
                    aux_len as int,
                ) as usize,
                color_fade_radius: spec_color_fade_radius(
                    old(state).frame_counter as int,
                    self.config.animation.color_fade.start_frame as int,
                    self.config.animation.color_fade.value_per_frame as int,
                    self.config.animation.color_fade.end_value as int,
                ) as u32,
                logo_alpha: spec_logo_alpha(
                    old(state).frame_counter as int,
                    self.config.animation.logo_fade.start_frame as int,
                    self.config.animation.logo_fade.value_per_frame as int,
                ) as u8,
                ak_bar_width: spec_bar_width(
                    old(state).frame_counter as int,
                    self.config.animation.bars_lines.ak_bar.start_frame as int,
                    self.config.animation.bars_lines.ak_bar.frame_count as int,
                    self.config.animation.bars_lines.line_width as int,
                ) as u32,
                upper_line_width: spec_bar_width(
                    old(state).frame_counter as int,
                    self.config.animation.bars_lines.upper_line.start_frame as int,
                    self.config.animation.bars_lines.upper_line.frame_count as int,
                    self.config.animation.bars_lines.line_width as int,
                ) as u32,
                lower_line_width: spec_bar_width(
                    old(state).frame_counter as int,
                    self.config.animation.bars_lines.lower_line.start_frame as int,
                    self.config.animation.bars_lines.lower_line.frame_count as int,
                    self.config.animation.bars_lines.line_width as int,
                ) as u32,
                arrow_y: spec_arrow_y(
                    old(state).arrow_y as int,
                    self.config.animation.arrow.y_incr_per_frame as int,
                ) as i32,
                ..*old(state)
            }),
            0 < final(state).arrow_y <= ARROW_HEIGHT,
    {
        let frame = state.frame_counter;
        let a = &self.config.animation;

        state.name_chars = calculate_typewriter_chars(
            frame,
            name_len,
            a.typewriter.name.start_frame,
            a.typewriter.name.frame_per_char,
        );
        state.code_chars = calculate_typewriter_chars(
            frame,
            code_len,
            a.typewriter.code.start_frame,
            a.typewriter.code.frame_per_char,
        );
        state.staff_chars = calculate_typewriter_chars(
            frame,
            staff_len,
            a.typewriter.staff.start_frame,
            a.typewriter.staff.frame_per_char,
        );
        state.aux_chars = calculate_typewriter_chars(
            frame,
            aux_len,
            a.typewriter.aux.start_frame,
            a.typewriter.aux.frame_per_char,
        );

        state.color_fade_radius = calculate_color_fade_radius_at(
            frame,
            a.color_fade.start_frame,
            a.color_fade.value_per_frame,
            a.color_fade.end_value,
        );
        state.logo_alpha = calculate_logo_alpha_at(
            frame,
            a.logo_fade.start_frame,
            a.logo_fade.value_per_frame,
        );

        let line_width = a.bars_lines.line_width;
        state.ak_bar_width = calculate_bar_width_at(
            frame,
            a.bars_lines.ak_bar.start_frame,
            a.bars_lines.ak_bar.frame_count,
            line_width,
        );
        state.upper_line_width = calculate_bar_width_at(
            frame,
            a.bars_lines.upper_line.start_frame,
            a.bars_lines.upper_line.frame_count,
            line_width,
        );
        state.lower_line_width = calculate_bar_width_at(
            frame,
            a.bars_lines.lower_line.start_frame,
            a.bars_lines.lower_line.frame_count,
            line_width,
        );

        let incr = a.arrow.y_incr_per_frame;
        if state.arrow_y - incr <= 0 {
            state.arrow_y = ARROW_HEIGHT;
        } else {
            state.arrow_y = state.arrow_y - incr;
        }
    }
}

} // verus!
