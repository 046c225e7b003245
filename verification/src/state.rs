//! Playback state: the play-state enum, transition phases, e-ink
//! cycling, per-frame animation values and the aggregate simulator
//! state the playback machine advances.

use vstd::prelude::*;

use crate::epconfig::TransitionType;

verus! {

/// Progress values are carried in millionths: `1_000_000` is `1.0`.
pub const PROGRESS_ONE: u32 = 1_000_000;

/// A transition's progress at and beyond which its Hold phase runs
/// (the firmware's `0.333`; the boundary belongs to the higher phase).
pub const PHASE_HOLD_START: u32 = 333_000;

/// A transition's progress at and beyond which its Out phase runs
/// (the firmware's `0.667`).
pub const PHASE_OUT_START: u32 = 667_000;

/// Playback state of the top-level machine.
#[derive(Clone, Copy, Debug, PartialEq, Eq, Structural)]
pub enum PlayState {
    /// Waiting for a start command.
    Idle,
    /// Entry transition effect.
    TransitionIn,
    /// Intro video playback.
    Intro,
    /// Transition effect into the loop video.
    TransitionLoop,
    /// Waiting for the configured appear time before the overlay shows.
    PreOpinfo,
    /// Loop video with the overlay animation.
    Loop,
}

impl Default for PlayState {
    fn default() -> (r: Self)
        ensures
            r == PlayState::Idle,
    {
        PlayState::Idle
    }
}

impl PlayState {
    /// The numeric identifier of each state on the control channel.
    pub open spec fn spec_as_u8(self) -> u8 {
        match self {
            PlayState::Idle => 0,
            PlayState::TransitionIn => 1,
            PlayState::Intro => 2,
            PlayState::TransitionLoop => 3,
            PlayState::PreOpinfo => 4,
            PlayState::Loop => 5,
        }
    }

    /// Numeric identifier used in control-channel state updates.
    pub fn as_u8(&self) -> (r: u8)
        ensures
            r == self.spec_as_u8(),
    {
        match self {
            PlayState::Idle => 0,
            PlayState::TransitionIn => 1,
            PlayState::Intro => 2,
            PlayState::TransitionLoop => 3,
            PlayState::PreOpinfo => 4,
            PlayState::Loop => 5,
        }
    }

    /// The state a numeric identifier names, if any.
    pub fn from_u8(value: u8) -> (r: Option<PlayState>)
        ensures
            value <= 5 ==> (r matches Some(s) && s.spec_as_u8() == value),
            value > 5 ==> r is None,
    {
        match value {
            0 => Some(PlayState::Idle),
            1 => Some(PlayState::TransitionIn),
            2 => Some(PlayState::Intro),
            3 => Some(PlayState::TransitionLoop),
            4 => Some(PlayState::PreOpinfo),
            5 => Some(PlayState::Loop),
            _ => None,
        }
    }

    /// English display name of the state.
    pub fn display_name(&self) -> (r: &'static str)
        ensures
            *self == PlayState::Idle ==> r@ == "Idle"@,
            *self == PlayState::TransitionIn ==> r@ == "Transition In"@,
            *self == PlayState::Intro ==> r@ == "Intro"@,
            *self == PlayState::TransitionLoop ==> r@ == "Transition Loop"@,
            *self == PlayState::PreOpinfo ==> r@ == "Pre-Opinfo"@,
            *self == PlayState::Loop ==> r@ == "Loop"@,
    {
        match self {
            PlayState::Idle => "Idle",
            PlayState::TransitionIn => "Transition In",
            PlayState::Intro => "Intro",
            PlayState::TransitionLoop => "Transition Loop",
            PlayState::PreOpinfo => "Pre-Opinfo",
            PlayState::Loop => "Loop",
        }
    }

    /// Chinese display name of the state.
    pub fn display_name_zh(&self) -> (r: &'static str)
        ensures
            *self == PlayState::Idle ==> r@ == "\u{7a7a}\u{95f2}"@,
            *self == PlayState::TransitionIn ==> r@ == "\u{5165}\u{573a}\u{8fc7}\u{6e21}"@,
            *self == PlayState::Intro ==> r@ == "\u{5165}\u{573a}\u{89c6}\u{9891}"@,
            *self == PlayState::TransitionLoop ==> r@ == "\u{5faa}\u{73af}\u{8fc7}\u{6e21}"@,
            *self == PlayState::PreOpinfo ==> r@ == "\u{7b49}\u{5f85}\u{663e}\u{793a}"@,
            *self == PlayState::Loop ==> r@ == "\u{5faa}\u{73af}\u{64ad}\u{653e}"@,
    {
        match self {
            PlayState::Idle => "\u{7a7a}\u{95f2}",
            PlayState::TransitionIn => "\u{5165}\u{573a}\u{8fc7}\u{6e21}",
            PlayState::Intro => "\u{5165}\u{573a}\u{89c6}\u{9891}",
            PlayState::TransitionLoop => "\u{5faa}\u{73af}\u{8fc7}\u{6e21}",
            PlayState::PreOpinfo => "\u{7b49}\u{5f85}\u{663e}\u{793a}",
            PlayState::Loop => "\u{5faa}\u{73af}\u{64ad}\u{653e}",
        }
    }
}

/// Phase within a transition effect, derived from progress alone.
#[derive(Clone, Copy, Debug, PartialEq, Eq, Structural)]
pub enum TransitionPhase {
    /// Entry: progress in `[0, 0.333)`.
    PhaseIn,
    /// Hold: progress in `[0.333, 0.667)`; the video switch happens here.
    PhaseHold,
    /// Exit: progress in `[0.667, 1)`.
    PhaseOut,
    /// Complete: progress at or above `1`.
    PhaseDone,
}

impl Default for TransitionPhase {
    fn default() -> (r: Self)
        ensures
            r == TransitionPhase::PhaseIn,
    {
        TransitionPhase::PhaseIn
    }
}

impl TransitionPhase {
    /// The phase a progress value (in millionths) falls in.
    pub open spec fn spec_from_progress(progress: int) -> TransitionPhase {
        if progress >= PROGRESS_ONE {
            TransitionPhase::PhaseDone
        } else if progress >= PHASE_OUT_START {
            TransitionPhase::PhaseOut
        } else if progress >= PHASE_HOLD_START {
            TransitionPhase::PhaseHold
        } else {
            TransitionPhase::PhaseIn
        }
    }

    /// Phase for a progress value in millionths; each boundary belongs
    /// to the higher phase.
    pub fn from_progress(progress: u32) -> (r: Self)
        ensures
            r == TransitionPhase::spec_from_progress(progress as int),
    {
        if progress >= PROGRESS_ONE {
            TransitionPhase::PhaseDone
        } else if progress >= PHASE_OUT_START {
            TransitionPhase::PhaseOut
        } else if progress >= PHASE_HOLD_START {
            TransitionPhase::PhaseHold
        } else {
            TransitionPhase::PhaseIn
        }
    }
}

/// Simulated electronic-paper refresh state: two black/white flashes,
/// then idle, then the final content.
#[derive(Clone, Copy, Debug, PartialEq, Eq, Structural)]
pub enum EinkState {
    FirstBlack,
    FirstWhite,
    SecondBlack,
    SecondWhite,
    Idle,
    Content,
}

impl Default for EinkState {
    fn default() -> (r: Self)
        ensures
            r == EinkState::Idle,
    {
        EinkState::Idle
    }
}

impl EinkState {
    /// The e-ink state at `frame`: `Idle` before `start_frame`, then one
    /// state per `frame_per_state` frames, settling on `Content`.
    pub open spec fn spec_from_frame(frame: int, start_frame: int, frame_per_state: int) -> EinkState {
        if frame < start_frame {
            EinkState::Idle
        } else {
            let index = (frame - start_frame) / frame_per_state;
            if index == 0 {
                EinkState::FirstBlack
            } else if index == 1 {
                EinkState::FirstWhite
            } else if index == 2 {
                EinkState::SecondBlack
            } else if index == 3 {
                EinkState::SecondWhite
            } else if index == 4 {
                EinkState::Idle
            } else {
                EinkState::Content
            }
        }
    }

    /// State of the e-ink cycle at `frame`.
    pub fn from_frame(frame: u32, start_frame: u32, frame_per_state: u32) -> (r: Self)
        requires
            frame_per_state > 0,
        ensures
            r == EinkState::spec_from_frame(frame as int, start_frame as int, frame_per_state as int),
    {
        if frame < start_frame {
            return EinkState::Idle;
        }

        let eink_frame = frame - start_frame;
        let state_index = eink_frame / frame_per_state;

        match state_index {
            0 => EinkState::FirstBlack,
            1 => EinkState::FirstWhite,
            2 => EinkState::SecondBlack,
            3 => EinkState::SecondWhite,
            4 => EinkState::Idle,
            _ => EinkState::Content,
        }
    }

    /// Whether the cycle has settled on the final content.
    pub fn is_content(&self) -> (r: bool)
        ensures
            r == (*self == EinkState::Content),
    {
        matches!(self, EinkState::Content)
    }

    /// Whether the cycle shows a black flash.
    pub fn is_black(&self) -> (r: bool)
        ensures
            r == (*self == EinkState::FirstBlack || *self == EinkState::SecondBlack),
    {
        matches!(self, EinkState::FirstBlack | EinkState::SecondBlack)
    }

    /// Whether the cycle shows a white flash.
    pub fn is_white(&self) -> (r: bool)
        ensures
            r == (*self == EinkState::FirstWhite || *self == EinkState::SecondWhite),
    {
        matches!(self, EinkState::FirstWhite | EinkState::SecondWhite)
    }
}

/// Once the cycle reaches `Content` (five full states after its start)
/// it stays there for every later frame.
pub proof fn eink_content_is_terminal(f1: int, f2: int, start: int, k: int)
    requires
        k > 0,
        f1 >= start + 5 * k,
        f2 >= f1,
    ensures
        EinkState::spec_from_frame(f1, start, k) == EinkState::Content,
        EinkState::spec_from_frame(f2, start, k) == EinkState::Content,
{
    assert((f1 - start) / k >= 5) by {
        vstd::arithmetic::div_mod::lemma_div_multiples_vanish(5, k);
        vstd::arithmetic::div_mod::lemma_div_is_ordered(5 * k, f1 - start, k);
    }
    assert((f2 - start) / k >= 5) by {
        vstd::arithmetic::div_mod::lemma_div_multiples_vanish(5, k);
        vstd::arithmetic::div_mod::lemma_div_is_ordered(5 * k, f2 - start, k);
    }
}

/// Per-frame values of the overlay animation while the machine is in
/// the `Loop` state. `entry_progress` is in millionths.
#[derive(Clone, Debug, PartialEq, Eq, Structural)]
pub struct AnimationState {
    /// Animation frame counter, incremented once per tick in `Loop`.
    pub frame_counter: u32,
    /// Typewriter: visible characters of the operator name.
    pub name_chars: usize,
    /// Typewriter: visible characters of the operator code.
    pub code_chars: usize,
    /// Typewriter: visible characters of the staff text.
    pub staff_chars: usize,
    /// Typewriter: visible characters of the auxiliary text.
    pub aux_chars: usize,
    /// E-ink cycle state of the barcode area.
    pub barcode_state: EinkState,
    /// E-ink cycle state of the class icon area.
    pub classicon_state: EinkState,
    /// Radius of the corner color fade, saturating at its end value.
    pub color_fade_radius: u32,
    /// Logo alpha, saturating at 255.
    pub logo_alpha: u8,
    /// Swept width of the progress bar.
    pub ak_bar_width: u32,
    /// Swept width of the upper divider line.
    pub upper_line_width: u32,
    /// Swept width of the lower divider line.
    pub lower_line_width: u32,
    /// Scrolling arrow offset; stays in `(0, 36]` once ticking.
    pub arrow_y: i32,
    /// Arrow scroll direction (always 1 in the firmware).
    pub arrow_direction: i32,
    /// Entry slide-in progress in millionths, clamping at one.
    pub entry_progress: u32,
    /// Entry slide-in vertical offset in pixels.
    pub entry_y_offset: i32,
    /// Whether the entry animation has been started.
    pub entry_started: bool,
}

impl AnimationState {
    /// The all-zero state every field starts from.
    pub open spec fn spec_zeroed() -> AnimationState {
        AnimationState {
            frame_counter: 0,
            name_chars: 0,
            code_chars: 0,
            staff_chars: 0,
            aux_chars: 0,
            barcode_state: EinkState::Idle,
            classicon_state: EinkState::Idle,
            color_fade_radius: 0,
            logo_alpha: 0,
            ak_bar_width: 0,
            upper_line_width: 0,
            lower_line_width: 0,
            arrow_y: 0,
            arrow_direction: 0,
            entry_progress: 0,
            entry_y_offset: 0,
            entry_started: false,
        }
    }

    /// The state a playback run begins with: zeroed, with the arrow
    /// scrolling upward.
    pub open spec fn spec_initial() -> AnimationState {
        AnimationState { arrow_direction: 1, ..AnimationState::spec_zeroed() }
    }

    /// Reset to the start-of-run state.
    pub fn reset(&mut self)
        ensures
            *final(self) == AnimationState::spec_initial(),
    {
        *self = AnimationState {
            frame_counter: 0,
            name_chars: 0,
            code_chars: 0,
            staff_chars: 0,
            aux_chars: 0,
            barcode_state: EinkState::Idle,
            classicon_state: EinkState::Idle,
            color_fade_radius: 0,
            logo_alpha: 0,
            ak_bar_width: 0,
            upper_line_width: 0,
            lower_line_width: 0,
            arrow_y: 0,
            arrow_direction: 1,
            entry_progress: 0,
            entry_y_offset: 0,
            entry_started: false,
        };
    }

    /// Whether the entry slide-in has finished.
    pub fn is_entry_complete(&self) -> (r: bool)
        ensures
            r == (self.entry_progress >= PROGRESS_ONE),
    {
        self.entry_progress >= PROGRESS_ONE
    }
}

impl Default for AnimationState {
    fn default() -> (d: Self)
        ensures
            d == AnimationState::spec_zeroed(),
    {
        AnimationState {
            frame_counter: 0,
            name_chars: 0,
            code_chars: 0,
            staff_chars: 0,
            aux_chars: 0,
            barcode_state: EinkState::Idle,
            classicon_state: EinkState::Idle,
            color_fade_radius: 0,
            logo_alpha: 0,
            ak_bar_width: 0,
            upper_line_width: 0,
            lower_line_width: 0,
            arrow_y: 0,
            arrow_direction: 0,
            entry_progress: 0,
            entry_y_offset: 0,
            entry_started: false,
        }
    }
}

/// State of the active transition effect.
#[derive(Clone, Debug, PartialEq, Eq, Structural)]
pub struct TransitionState {
    /// Current frame within the transition.
    pub frame: u32,
    /// Total frames the transition runs for; `0` means instantaneous.
    pub total_frames: u32,
    /// Effect kind, immutable for the instance's lifetime.
    pub transition_type: TransitionType,
    /// One-shot latch: set when the Hold phase is first observed and the
    /// underlying video source is swapped.
    pub video_switched: bool,
}

impl TransitionState {
    /// Progress in millionths: `frame / total_frames` capped at one, and
    /// one when `total_frames` is zero.
    pub open spec fn spec_progress(self) -> int {
        if self.total_frames == 0 {
            PROGRESS_ONE as int
        } else {
            let p = (self.frame as int) * (PROGRESS_ONE as int) / (self.total_frames as int);
            if p >= PROGRESS_ONE {
                PROGRESS_ONE as int
            } else {
                p
            }
        }
    }

    /// Current progress in millionths, in `[0, PROGRESS_ONE]`.
    pub fn progress(&self) -> (r: u32)
        ensures
            r == self.spec_progress(),
            r <= PROGRESS_ONE,
    {
        if self.total_frames == 0 {
            return PROGRESS_ONE;
        }
        let p: u64 = (self.frame as u64) * 1_000_000u64 / (self.total_frames as u64);
        if p >= PROGRESS_ONE as u64 {
            PROGRESS_ONE
        } else {
            p as u32
        }
    }

    /// Current phase, derived from progress.
    pub fn phase(&self) -> (r: TransitionPhase)
        ensures
            r == TransitionPhase::spec_from_progress(self.spec_progress()),
    {
        TransitionPhase::from_progress(self.progress())
    }

    /// Whether the transition has run its full frame budget.
    pub fn is_complete(&self) -> (r: bool)
        ensures
            r == (self.frame >= self.total_frames),
    {
        self.frame >= self.total_frames
    }

    /// Arm a fresh transition instance of the given kind and length.
    pub fn reset(&mut self, transition_type: TransitionType, total_frames: u32)
        ensures
            *final(self) == (TransitionState {
                frame: 0,
                total_frames,
                transition_type,
                video_switched: false,
            }),
    {
        self.frame = 0;
        self.total_frames = total_frames;
        self.transition_type = transition_type;
        self.video_switched = false;
    }
}

impl Default for TransitionState {
    fn default() -> (d: Self)
        ensures
            d == (TransitionState {
                frame: 0,
                total_frames: 0,
                transition_type: TransitionType::NoEffect,
                video_switched: false,
            }),
    {
        TransitionState {
            frame: 0,
            total_frames: 0,
            transition_type: TransitionType::NoEffect,
            video_switched: false,
        }
    }
}

/// Aggregate state of the whole simulator: play state, counters, the
/// active transition, the overlay animation and the two video
/// frame-sync accumulators (microseconds).
#[derive(Clone, Debug, PartialEq, Eq, Structural)]
pub struct SimulatorState {
    /// Current playback state.
    pub play_state: PlayState,
    /// Global tick counter of the current run.
    pub frame_counter: u64,
    /// Whether ticks currently advance the machine.
    pub is_playing: bool,
    /// One-shot latch: true until the first transition of the process
    /// has run; that first transition is forced to SWIPE.
    pub is_first_switch: bool,
    /// Active transition effect.
    pub transition: TransitionState,
    /// Overlay animation values.
    pub animation: AnimationState,
    /// Frames spent waiting in `PreOpinfo`.
    pub pre_opinfo_counter: u32,
    /// Configured wait, in frames, before the overlay appears.
    pub appear_time_frames: u32,
    /// Loop video frame-sync accumulator in microseconds.
    pub loop_frame_accumulator: i64,
    /// Intro video frame-sync accumulator in microseconds.
    pub intro_frame_accumulator: i64,
}

impl SimulatorState {
    /// The state at process start: idle, not playing, with the
    /// forced-swipe latch armed.
    pub open spec fn spec_initial() -> SimulatorState {
        SimulatorState {
            play_state: PlayState::Idle,
            frame_counter: 0,
            is_playing: false,
            is_first_switch: true,
            transition: TransitionState {
                frame: 0,
                total_frames: 0,
                transition_type: TransitionType::NoEffect,
                video_switched: false,
            },
            animation: AnimationState::spec_initial(),
            pre_opinfo_counter: 0,
            appear_time_frames: 0,
            loop_frame_accumulator: 0,
            intro_frame_accumulator: 0,
        }
    }

    /// Fresh state at process start.
    pub fn new() -> (s: Self)
        ensures
            s == SimulatorState::spec_initial(),
    {
        SimulatorState {
            play_state: PlayState::Idle,
            frame_counter: 0,
            is_playing: false,
            is_first_switch: true,
            transition: TransitionState {
                frame: 0,
                total_frames: 0,
                transition_type: TransitionType::NoEffect,
                video_switched: false,
            },
            animation: AnimationState {
                frame_counter: 0,
                name_chars: 0,
                code_chars: 0,
                staff_chars: 0,
                aux_chars: 0,
                barcode_state: EinkState::Idle,
                classicon_state: EinkState::Idle,
                color_fade_radius: 0,
                logo_alpha: 0,
                ak_bar_width: 0,
                upper_line_width: 0,
                lower_line_width: 0,
                arrow_y: 0,
                arrow_direction: 1,
                entry_progress: 0,
                entry_y_offset: 0,
                entry_started: false,
            },
            pre_opinfo_counter: 0,
            appear_time_frames: 0,
            loop_frame_accumulator: 0,
            intro_frame_accumulator: 0,
        }
    }

    /// Reset to the idle state. The configured appear time survives the
    /// reset, and so does the forced-swipe latch: it records whether any
    /// transition has ever run in this process, so a later run honors
    /// the configured transition kind.
    pub fn reset(&mut self)
        ensures
            *final(self) == (SimulatorState {
                appear_time_frames: old(self).appear_time_frames,
                is_first_switch: old(self).is_first_switch,
                ..SimulatorState::spec_initial()
            }),
    {
        let appear_time = self.appear_time_frames;
        let first_switch = self.is_first_switch;
        *self = SimulatorState::new();
        self.appear_time_frames = appear_time;
        self.is_first_switch = first_switch;
    }

    /// Begin a playback run: the machine enters `TransitionIn` when an
    /// intro video exists, else `TransitionLoop`, arming a transition of
    /// the requested kind. The first transition the process ever runs is
    /// forced to SWIPE, whatever was requested.
    pub fn start_playback(&mut self, has_intro: bool, transition_type: TransitionType, total_frames: u32)
        ensures
            *final(self) == (SimulatorState {
                play_state: if has_intro {
                    PlayState::TransitionIn
                } else {
                    PlayState::TransitionLoop
                },
                frame_counter: 0,
                is_playing: true,
                is_first_switch: false,
                transition: TransitionState {
                    frame: 0,
                    total_frames,
                    transition_type: if old(self).is_first_switch {
                        TransitionType::Swipe
                    } else {
                        transition_type
                    },
                    video_switched: false,
                },
                animation: AnimationState::spec_initial(),
                ..*old(self)
            }),
    {
        self.is_playing = true;
        self.frame_counter = 0;
        self.animation.reset();

        if has_intro {
            self.play_state = PlayState::TransitionIn;
        } else {
            self.play_state = PlayState::TransitionLoop;
        }

        let actual_type = if self.is_first_switch {
            self.is_first_switch = false;
            TransitionType::Swipe
        } else {
            transition_type
        };

        self.transition.reset(actual_type, total_frames);
    }

    /// Stop advancing on ticks.
    pub fn pause(&mut self)
        ensures
            *final(self) == (SimulatorState { is_playing: false, ..*old(self) }),
    {
        self.is_playing = false;
    }

    /// Resume advancing on ticks.
    pub fn resume(&mut self)
        ensures
            *final(self) == (SimulatorState { is_playing: true, ..*old(self) }),
    {
        self.is_playing = true;
    }
}

} // verus!
