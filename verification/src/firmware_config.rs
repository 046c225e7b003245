//! Firmware timing table: the named constants that drive every overlay
//! animation — per-element start frames and rates, transition frame
//! budget, entry animation length and layout geometry.

use vstd::prelude::*;

verus! {

/// Typewriter timing for one text element.
#[derive(Clone, Copy, Debug, PartialEq, Eq, Structural)]
pub struct TypewriterElementConfig {
    /// Animation frame the reveal starts at.
    pub start_frame: u32,
    /// Frames per revealed character; always positive.
    pub frame_per_char: u32,
}

impl Default for TypewriterElementConfig {
    fn default() -> (d: Self)
        ensures
            d == (TypewriterElementConfig { start_frame: 30, frame_per_char: 3 }),
    {
        TypewriterElementConfig { start_frame: 30, frame_per_char: 3 }
    }
}

/// Typewriter timing of the four text elements.
#[derive(Clone, Copy, Debug, PartialEq, Eq, Structural)]
pub struct TypewriterConfig {
    pub name: TypewriterElementConfig,
    pub code: TypewriterElementConfig,
    pub staff: TypewriterElementConfig,
    pub aux: TypewriterElementConfig,
}

impl Default for TypewriterConfig {
    fn default() -> (d: Self)
        ensures
            d == (TypewriterConfig {
                name: TypewriterElementConfig { start_frame: 30, frame_per_char: 3 },
                code: TypewriterElementConfig { start_frame: 30, frame_per_char: 3 },
                staff: TypewriterElementConfig { start_frame: 30, frame_per_char: 3 },
                aux: TypewriterElementConfig { start_frame: 30, frame_per_char: 3 },
            }),
    {
        TypewriterConfig {
            name: TypewriterElementConfig { start_frame: 30, frame_per_char: 3 },
            code: TypewriterElementConfig { start_frame: 30, frame_per_char: 3 },
            staff: TypewriterElementConfig { start_frame: 30, frame_per_char: 3 },
            aux: TypewriterElementConfig { start_frame: 30, frame_per_char: 3 },
        }
    }
}

/// E-ink cycle timing for one element.
#[derive(Clone, Copy, Debug, PartialEq, Eq, Structural)]
pub struct EinkElementConfig {
    /// Animation frame the cycle starts at.
    pub start_frame: u32,
    /// Frames each cycle state lasts; always positive.
    pub frame_per_state: u32,
}

impl Default for EinkElementConfig {
    fn default() -> (d: Self)
        ensures
            d == (EinkElementConfig { start_frame: 30, frame_per_state: 15 }),
    {
        EinkElementConfig { start_frame: 30, frame_per_state: 15 }
    }
}

/// E-ink cycle timing of the barcode and the class icon.
#[derive(Clone, Copy, Debug, PartialEq, Eq, Structural)]
pub struct EinkConfig {
    pub barcode: EinkElementConfig,
    pub classicon: EinkElementConfig,
}

impl Default for EinkConfig {
    fn default() -> (d: Self)
        ensures
            d == (EinkConfig {
                barcode: EinkElementConfig { start_frame: 30, frame_per_state: 15 },
                classicon: EinkElementConfig { start_frame: 30, frame_per_state: 15 },
            }),
    {
        EinkConfig {
            barcode: EinkElementConfig { start_frame: 30, frame_per_state: 15 },
            classicon: EinkElementConfig { start_frame: 30, frame_per_state: 15 },
        }
    }
}

/// Corner color-fade timing: radius grows by `value_per_frame` each
/// frame from `start_frame`, saturating at `end_value`.
#[derive(Clone, Copy, Debug, PartialEq, Eq, Structural)]
pub struct ColorFadeConfig {
    pub start_frame: u32,
    pub value_per_frame: u32,
    pub end_value: u32,
}

impl Default for ColorFadeConfig {
    fn default() -> (d: Self)
        ensures
            d == (ColorFadeConfig { start_frame: 15, value_per_frame: 10, end_value: 192 }),
    {
        ColorFadeConfig { start_frame: 15, value_per_frame: 10, end_value: 192 }
    }
}

/// Logo fade timing: alpha grows by `value_per_frame` each frame from
/// `start_frame`, saturating at 255.
#[derive(Clone, Copy, Debug, PartialEq, Eq, Structural)]
pub struct LogoFadeConfig {
    pub start_frame: u32,
    pub value_per_frame: u32,
}

impl Default for LogoFadeConfig {
    fn default() -> (d: Self)
        ensures
            d == (LogoFadeConfig { start_frame: 30, value_per_frame: 5 }),
    {
        LogoFadeConfig { start_frame: 30, value_per_frame: 5 }
    }
}

/// Sweep timing of one bar or divider line.
#[derive(Clone, Copy, Debug, PartialEq, Eq, Structural)]
pub struct BarLineElementConfig {
    /// Animation frame the sweep starts at.
    pub start_frame: u32,
    /// Frames the sweep takes to reach full width; always positive.
    pub frame_count: u32,
}

impl Default for BarLineElementConfig {
    fn default() -> (d: Self)
        ensures
            d == (BarLineElementConfig { start_frame: 80, frame_count: 40 }),
    {
        BarLineElementConfig { start_frame: 80, frame_count: 40 }
    }
}

/// Sweep timing of the progress bar and the two divider lines.
#[derive(Clone, Copy, Debug, PartialEq, Eq, Structural)]
pub struct BarsLinesConfig {
    pub ak_bar: BarLineElementConfig,
    pub upper_line: BarLineElementConfig,
    pub lower_line: BarLineElementConfig,
    /// Target width in pixels all three sweep towards.
    pub line_width: u32,
}

impl Default for BarsLinesConfig {
    fn default() -> (d: Self)
        ensures
            d == (BarsLinesConfig {
                ak_bar: BarLineElementConfig { start_frame: 100, frame_count: 40 },
                upper_line: BarLineElementConfig { start_frame: 80, frame_count: 40 },
                lower_line: BarLineElementConfig { start_frame: 90, frame_count: 40 },
                line_width: 280,
            }),
    {
        BarsLinesConfig {
            ak_bar: BarLineElementConfig { start_frame: 100, frame_count: 40 },
            upper_line: BarLineElementConfig { start_frame: 80, frame_count: 40 },
            lower_line: BarLineElementConfig { start_frame: 90, frame_count: 40 },
            line_width: 280,
        }
    }
}

/// Scrolling arrow settings.
#[derive(Clone, Copy, Debug, PartialEq, Eq, Structural)]
pub struct ArrowConfig {
    /// Pixels the arrow moves up per frame; never negative.
    pub y_incr_per_frame: i32,
}

impl Default for ArrowConfig {
    fn default() -> (d: Self)
        ensures
            d == (ArrowConfig { y_incr_per_frame: 1 }),
    {
        ArrowConfig { y_incr_per_frame: 1 }
    }
}

/// Entry slide-in settings.
#[derive(Clone, Copy, Debug, PartialEq, Eq, Structural)]
pub struct EntryConfig {
    /// Frames the slide-in takes; always positive.
    pub total_frames: u32,
}

impl Default for EntryConfig {
    fn default() -> (d: Self)
        ensures
            d == (EntryConfig { total_frames: 50 }),
    {
        EntryConfig { total_frames: 50 }
    }
}

/// All animation timing constants.
#[derive(Clone, Copy, Debug, PartialEq, Eq, Structural)]
pub struct AnimationConfig {
    /// Render tick rate in frames per second.
    pub fps: u32,
    /// Tick interval in microseconds.
    pub step_time_us: u32,
    pub typewriter: TypewriterConfig,
    pub eink: EinkConfig,
    pub color_fade: ColorFadeConfig,
    pub logo_fade: LogoFadeConfig,
    pub bars_lines: BarsLinesConfig,
    pub arrow: ArrowConfig,
    pub entry: EntryConfig,
}

impl AnimationConfig {
    /// The firmware's default animation timings.
    pub open spec fn spec_default() -> AnimationConfig {
        AnimationConfig {
            fps: 50,
            step_time_us: 20000,
            typewriter: TypewriterConfig {
                name: TypewriterElementConfig { start_frame: 30, frame_per_char: 3 },
                code: TypewriterElementConfig { start_frame: 40, frame_per_char: 3 },
                staff: TypewriterElementConfig { start_frame: 40, frame_per_char: 3 },
                aux: TypewriterElementConfig { start_frame: 50, frame_per_char: 2 },
            },
            eink: EinkConfig {
                barcode: EinkElementConfig { start_frame: 30, frame_per_state: 15 },
                classicon: EinkElementConfig { start_frame: 60, frame_per_state: 15 },
            },
            color_fade: ColorFadeConfig { start_frame: 15, value_per_frame: 10, end_value: 192 },
            logo_fade: LogoFadeConfig { start_frame: 30, value_per_frame: 5 },
            bars_lines: BarsLinesConfig {
                ak_bar: BarLineElementConfig { start_frame: 100, frame_count: 40 },
                upper_line: BarLineElementConfig { start_frame: 80, frame_count: 40 },
                lower_line: BarLineElementConfig { start_frame: 90, frame_count: 40 },
                line_width: 280,
            },
            arrow: ArrowConfig { y_incr_per_frame: 1 },
            entry: EntryConfig { total_frames: 50 },
        }
    }
}

impl Default for AnimationConfig {
    fn default() -> (d: Self)
        ensures
            d == AnimationConfig::spec_default(),
    {
        AnimationConfig {
            fps: 50,
            step_time_us: 20000,
            typewriter: TypewriterConfig {
                name: TypewriterElementConfig { start_frame: 30, frame_per_char: 3 },
                code: TypewriterElementConfig { start_frame: 40, frame_per_char: 3 },
                staff: TypewriterElementConfig { start_frame: 40, frame_per_char: 3 },
                aux: TypewriterElementConfig { start_frame: 50, frame_per_char: 2 },
            },
            eink: EinkConfig {
                barcode: EinkElementConfig { start_frame: 30, frame_per_state: 15 },
                classicon: EinkElementConfig { start_frame: 60, frame_per_state: 15 },
            },
            color_fade: ColorFadeConfig { start_frame: 15, value_per_frame: 10, end_value: 192 },
            logo_fade: LogoFadeConfig { start_frame: 30, value_per_frame: 5 },
            bars_lines: BarsLinesConfig {
                ak_bar: BarLineElementConfig { start_frame: 100, frame_count: 40 },
                upper_line: BarLineElementConfig { start_frame: 80, frame_count: 40 },
                lower_line: BarLineElementConfig { start_frame: 90, frame_count: 40 },
                line_width: 280,
            },
            arrow: ArrowConfig { y_incr_per_frame: 1 },
            entry: EntryConfig { total_frames: 50 },
        }
    }
}

/// Pixel offsets of the overlay elements.
#[derive(Clone, Copy, Debug, PartialEq, Eq, Structural)]
pub struct LayoutOffsetsConfig {
    pub btm_info_x: u32,
    pub opname_y: u32,
    pub upperline_y: u32,
    pub lowerline_y: u32,
    pub opcode_y: u32,
    pub staff_text_y: u32,
    pub class_icon_y: u32,
    pub ak_bar_y: u32,
    pub aux_text_y: u32,
    pub aux_text_line_height: u32,
    pub arrow_y: u32,
}

impl Default for LayoutOffsetsConfig {
    fn default() -> (d: Self)
        ensures
            d == (LayoutOffsetsConfig {
                btm_info_x: 70,
                opname_y: 415,
                upperline_y: 455,
                lowerline_y: 475,
                opcode_y: 457,
                staff_text_y: 480,
                class_icon_y: 525,
                ak_bar_y: 578,
                aux_text_y: 592,
                aux_text_line_height: 15,
                arrow_y: 100,
            }),
    {
        LayoutOffsetsConfig {
            btm_info_x: 70,
            opname_y: 415,
            upperline_y: 455,
            lowerline_y: 475,
            opcode_y: 457,
            staff_text_y: 480,
            class_icon_y: 525,
            ak_bar_y: 578,
            aux_text_y: 592,
            aux_text_line_height: 15,
            arrow_y: 100,
        }
    }
}

/// Placement of the generated barcode.
#[derive(Clone, Copy, Debug, PartialEq, Eq, Structural)]
pub struct BarcodeLayoutConfig {
    pub x: u32,
    pub y: u32,
    pub width: u32,
    pub height: u32,
}

impl Default for BarcodeLayoutConfig {
    fn default() -> (d: Self)
        ensures
            d == (BarcodeLayoutConfig { x: 1, y: 450, width: 50, height: 180 }),
    {
        BarcodeLayoutConfig { x: 1, y: 450, width: 50, height: 180 }
    }
}

/// A width and height in pixels.
#[derive(Clone, Copy, Debug, PartialEq, Eq, Structural)]
pub struct SizeConfig {
    pub width: u32,
    pub height: u32,
}

impl Default for SizeConfig {
    fn default() -> (d: Self)
        ensures
            d == (SizeConfig { width: 360, height: 640 }),
    {
        SizeConfig { width: 360, height: 640 }
    }
}

/// Overlay layout geometry.
#[derive(Clone, Copy, Debug, PartialEq, Eq, Structural)]
pub struct LayoutConfig {
    pub overlay: SizeConfig,
    pub offsets: LayoutOffsetsConfig,
    pub barcode: BarcodeLayoutConfig,
    pub class_icon: SizeConfig,
}

/// Transition frame-budget settings. The three phase widths are fixed
/// design constants (a third each), not configurable.
#[derive(Clone, Copy, Debug, PartialEq, Eq, Structural)]
pub struct TransitionAnimConfig {
    /// Frame budget used when the material supplies no duration.
    pub default_frames: u32,
}

impl Default for TransitionAnimConfig {
    fn default() -> (d: Self)
        ensures
            d == (TransitionAnimConfig { default_frames: 75 }),
    {
        TransitionAnimConfig { default_frames: 75 }
    }
}

/// The firmware configuration: animation timings, layout geometry and
/// the transition frame budget.
#[derive(Clone, Copy, Debug, PartialEq, Eq, Structural)]
pub struct FirmwareConfig {
    pub animation: AnimationConfig,
    pub layout: LayoutConfig,
    pub transition: TransitionAnimConfig,
}

impl FirmwareConfig {
    /// The firmware's default configuration.
    pub open spec fn spec_default() -> FirmwareConfig {
        FirmwareConfig {
            animation: AnimationConfig::spec_default(),
            layout: LayoutConfig {
                overlay: SizeConfig { width: 360, height: 640 },
                offsets: LayoutOffsetsConfig {
                    btm_info_x: 70,
                    opname_y: 415,
                    upperline_y: 455,
                    lowerline_y: 475,
                    opcode_y: 457,
                    staff_text_y: 480,
                    class_icon_y: 525,
                    ak_bar_y: 578,
                    aux_text_y: 592,
                    aux_text_line_height: 15,
                    arrow_y: 100,
                },
                barcode: BarcodeLayoutConfig { x: 1, y: 450, width: 50, height: 180 },
                class_icon: SizeConfig { width: 50, height: 50 },
            },
            transition: TransitionAnimConfig { default_frames: 75 },
        }
    }

    /// All rates and frame counts the animation divides by are
    /// positive, every arithmetic input is small enough for the
    /// per-frame derivations, and the arrow increment is not negative.
    pub open spec fn wf(self) -> bool {
        &&& self.animation.typewriter.name.frame_per_char > 0
        &&& self.animation.typewriter.code.frame_per_char > 0
        &&& self.animation.typewriter.staff.frame_per_char > 0
        &&& self.animation.typewriter.aux.frame_per_char > 0
        &&& self.animation.eink.barcode.frame_per_state > 0
        &&& self.animation.eink.classicon.frame_per_state > 0
        &&& self.animation.bars_lines.ak_bar.frame_count > 0
        &&& self.animation.bars_lines.upper_line.frame_count > 0
        &&& self.animation.bars_lines.lower_line.frame_count > 0
        &&& self.animation.entry.total_frames > 0
        &&& 0 <= self.animation.arrow.y_incr_per_frame
        &&& 0 < self.animation.fps <= 1000
        &&& self.layout.overlay.width <= 0x10000
        &&& self.layout.overlay.height <= 0x10000
        &&& self.animation.bars_lines.line_width <= 0x10000
    }

    /// Default configuration with the firmware's hardcoded values.
    pub fn get_default() -> (c: Self)
        ensures
            c == FirmwareConfig::spec_default(),
            c.wf(),
    {
        FirmwareConfig {
            animation: AnimationConfig::default(),
            layout: LayoutConfig {
                overlay: SizeConfig { width: 360, height: 640 },
                offsets: LayoutOffsetsConfig {
                    btm_info_x: 70,
                    opname_y: 415,
                    upperline_y: 455,
                    lowerline_y: 475,
                    opcode_y: 457,
                    staff_text_y: 480,
                    class_icon_y: 525,
                    ak_bar_y: 578,
                    aux_text_y: 592,
                    aux_text_line_height: 15,
                    arrow_y: 100,
                },
                barcode: BarcodeLayoutConfig { x: 1, y: 450, width: 50, height: 180 },
                class_icon: SizeConfig { width: 50, height: 50 },
            },
            transition: TransitionAnimConfig { default_frames: 75 },
        }
    }

    /// Render tick rate in frames per second.
    pub fn fps(&self) -> (r: u32)
        ensures
            r == self.animation.fps,
    {
        self.animation.fps
    }

    /// Overlay width in pixels.
    pub fn overlay_width(&self) -> (r: u32)
        ensures
            r == self.layout.overlay.width,
    {
        self.layout.overlay.width
    }

    /// Overlay height in pixels.
    pub fn overlay_height(&self) -> (r: u32)
        ensures
            r == self.layout.overlay.height,
    {
        self.layout.overlay.height
    }

    /// Start frame of the operator name reveal.
    pub fn name_start_frame(&self) -> (r: u32)
        ensures
            r == self.animation.typewriter.name.start_frame,
    {
        self.animation.typewriter.name.start_frame
    }

    /// Frames per character of the operator name reveal.
    pub fn name_frame_per_char(&self) -> (r: u32)
        ensures
            r == self.animation.typewriter.name.frame_per_char,
    {
        self.animation.typewriter.name.frame_per_char
    }

    /// Start frame of the operator code reveal.
    pub fn code_start_frame(&self) -> (r: u32)
        ensures
            r == self.animation.typewriter.code.start_frame,
    {
        self.animation.typewriter.code.start_frame
    }

    /// Frames per character of the operator code reveal.
    pub fn code_frame_per_char(&self) -> (r: u32)
        ensures
            r == self.animation.typewriter.code.frame_per_char,
    {
        self.animation.typewriter.code.frame_per_char
    }

    /// Start frame of the staff text reveal.
    pub fn staff_start_frame(&self) -> (r: u32)
        ensures
            r == self.animation.typewriter.staff.start_frame,
    {
        self.animation.typewriter.staff.start_frame
    }

    /// Frames per character of the staff text reveal.
    pub fn staff_frame_per_char(&self) -> (r: u32)
        ensures
            r == self.animation.typewriter.staff.frame_per_char,
    {
        self.animation.typewriter.staff.frame_per_char
    }

    /// Start frame of the auxiliary text reveal.
    pub fn aux_start_frame(&self) -> (r: u32)
        ensures
            r == self.animation.typewriter.aux.start_frame,
    {
        self.animation.typewriter.aux.start_frame
    }

    /// Frames per character of the auxiliary text reveal.
    pub fn aux_frame_per_char(&self) -> (r: u32)
        ensures
            r == self.animation.typewriter.aux.frame_per_char,
    {
        self.animation.typewriter.aux.frame_per_char
    }

    /// Start frame of the barcode e-ink cycle.
    pub fn barcode_start_frame(&self) -> (r: u32)
        ensures
            r == self.animation.eink.barcode.start_frame,
    {
        self.animation.eink.barcode.start_frame
    }

    /// Frames per state of the barcode e-ink cycle.
    pub fn barcode_frame_per_state(&self) -> (r: u32)
        ensures
            r == self.animation.eink.barcode.frame_per_state,
    {
        self.animation.eink.barcode.frame_per_state
    }

    /// Start frame of the class icon e-ink cycle.
    pub fn classicon_start_frame(&self) -> (r: u32)
        ensures
            r == self.animation.eink.classicon.start_frame,
    {
        self.animation.eink.classicon.start_frame
    }

    /// Frames per state of the class icon e-ink cycle.
    pub fn classicon_frame_per_state(&self) -> (r: u32)
        ensures
            r == self.animation.eink.classicon.frame_per_state,
    {
        self.animation.eink.classicon.frame_per_state
    }

    /// Start frame of the corner color fade.
    pub fn color_fade_start_frame(&self) -> (r: u32)
        ensures
            r == self.animation.color_fade.start_frame,
    {
        self.animation.color_fade.start_frame
    }

    /// Radius growth of the corner color fade per frame.
    pub fn color_fade_value_per_frame(&self) -> (r: u32)
        ensures
            r == self.animation.color_fade.value_per_frame,
    {
        self.animation.color_fade.value_per_frame
    }

    /// Radius the corner color fade saturates at.
    pub fn color_fade_end_value(&self) -> (r: u32)
        ensures
            r == self.animation.color_fade.end_value,
    {
        self.animation.color_fade.end_value
    }

    /// Start frame of the logo fade.
    pub fn logo_fade_start_frame(&self) -> (r: u32)
        ensures
            r == self.animation.logo_fade.start_frame,
    {
        self.animation.logo_fade.start_frame
    }

    /// Alpha growth of the logo fade per frame.
    pub fn logo_fade_value_per_frame(&self) -> (r: u32)
        ensures
            r == self.animation.logo_fade.value_per_frame,
    {
        self.animation.logo_fade.value_per_frame
    }

    /// Frames the entry slide-in takes.
    pub fn entry_animation_frames(&self) -> (r: u32)
        ensures
            r == self.animation.entry.total_frames,
    {
        self.animation.entry.total_frames
    }

    /// Horizontal offset of the bottom info block.
    pub fn btm_info_offset_x(&self) -> (r: u32)
        ensures
            r == self.layout.offsets.btm_info_x,
    {
        self.layout.offsets.btm_info_x
    }

    /// Vertical offset of the operator name.
    pub fn opname_offset_y(&self) -> (r: u32)
        ensures
            r == self.layout.offsets.opname_y,
    {
        self.layout.offsets.opname_y
    }

    /// Vertical offset of the operator code.
    pub fn opcode_offset_y(&self) -> (r: u32)
        ensures
            r == self.layout.offsets.opcode_y,
    {
        self.layout.offsets.opcode_y
    }
}

impl Default for FirmwareConfig {
    fn default() -> (d: Self)
        ensures
            d == FirmwareConfig::spec_default(),
    {
        FirmwareConfig::get_default()
    }
}

} // verus!
