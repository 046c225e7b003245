//! The playback state machine: orchestrates intro/loop playback,
//! transitions and the overlay animation, one tick at a time.
//!
//! The machine is pure: outside work — seeking or advancing a video,
//! sending a state update — is requested through effect flags returned
//! by each call, and the one outside fact a tick depends on (whether
//! the intro video still had a frame) comes in through `TickInput`.

use vstd::prelude::*;

use crate::animation::{spec_clock_update, AnimationController, ARROW_HEIGHT};
use crate::epconfig::{EPConfig, OverlayType, TransitionType};
use crate::firmware_config::FirmwareConfig;
use crate::protocol::ControlCommand;
use crate::state::{
    AnimationState, PlayState, SimulatorState, TransitionPhase, TransitionState,
};

verus! {

/// Microseconds one render tick stands for (50 Hz).
pub const TICK_INTERVAL_US: i64 = 20000;

/// Ceiling on durations taken from a material, in microseconds (one
/// day); keeps every frame computation inside machine integer limits.
pub const MAX_DURATION_US: i64 = 86_400_000_000;

/// Frames a duration of `us` microseconds spans at `fps` frames per
/// second, floored at one frame.
pub open spec fn spec_ms_to_frames(us: int, fps: int) -> int {
    let f = us * fps / 1_000_000;
    if f < 1 {
        1
    } else {
        f
    }
}

/// `us` clamped to `[0, MAX_DURATION_US]`.
pub open spec fn spec_clamp_duration(us: int) -> int {
    if us < 0 {
        0
    } else if us > MAX_DURATION_US {
        MAX_DURATION_US as int
    } else {
        us
    }
}

/// Convert a microsecond duration to frames, floored at one frame.
pub fn microseconds_to_frames(us: i64, fps: u32) -> (r: u32)
    requires
        0 <= us,
        us * fps <= i64::MAX,
        spec_ms_to_frames(us as int, fps as int) <= u32::MAX,
    ensures
        r == spec_ms_to_frames(us as int, fps as int),
{
    let f = (us * (fps as i64)) / 1_000_000;
    if f < 1 {
        1
    } else {
        f as u32
    }
}

/// Convert a duration from a material to frames, clamping it to
/// `MAX_DURATION_US` first so the arithmetic stays in range.
pub fn clamped_ms_to_frames(us: i64, fps: u32) -> (r: u32)
    requires
        0 < fps <= 1000,
    ensures
        r == spec_ms_to_frames(spec_clamp_duration(us as int), fps as int),
        r <= 86_400_000,
{
    let clamped: i64 = if us < 0 {
        0
    } else if us > MAX_DURATION_US {
        MAX_DURATION_US
    } else {
        us
    };
    proof {
        crate::easing::mul_bounds(clamped as int, fps as int, MAX_DURATION_US as int, 1000);
        vstd::arithmetic::div_mod::lemma_div_is_ordered(
            clamped * fps,
            (MAX_DURATION_US as int) * 1000,
            1_000_000,
        );
    }
    microseconds_to_frames(clamped, fps)
}

/// True when the two strings hold the same characters.
fn str_eq(a: &str, b: &str) -> (r: bool)
    ensures
        r == (a@ == b@),
{
    let n = a.unicode_len();
    let m = b.unicode_len();
    if n != m {
        return false;
    }
    let mut i: usize = 0;
    while i < n
        invariant
            0 <= i <= n,
            n == a@.len(),
            n == b@.len(),
            forall|j: int| 0 <= j < i ==> a@[j] == b@[j],
        decreases n - i,
    {
        if a.get_char(i) != b.get_char(i) {
            return false;
        }
        i = i + 1;
    }
    proof {
        assert(a@ =~= b@);
    }
    true
}

/// The transition kind a selector index names: the order the UI lists
/// them in (fade, move, swipe, none).
pub open spec fn spec_type_from_index(index: int) -> TransitionType {
    if index == 0 {
        TransitionType::Fade
    } else if index == 1 {
        TransitionType::Move
    } else if index == 2 {
        TransitionType::Swipe
    } else {
        TransitionType::NoEffect
    }
}

/// The selector index a transition kind sits at.
pub open spec fn spec_index_from_type(t: TransitionType) -> int {
    match t {
        TransitionType::Fade => 0,
        TransitionType::Move => 1,
        TransitionType::Swipe => 2,
        TransitionType::NoEffect => 3,
    }
}

/// The selector index a control-channel transition name means:
/// `fade`, `move` or `swipe`; anything else selects no effect.
pub open spec fn spec_index_from_name(s: Seq<char>) -> int {
    if s == "fade"@ {
        0
    } else if s == "move"@ {
        1
    } else if s == "swipe"@ {
        2
    } else {
        3
    }
}

/// What a tick needs to know from the video collaborators: each
/// video's native frame duration, and — consulted only when the
/// machine is in `Intro` and the accumulator gate opens — whether
/// advancing the intro found it exhausted.
#[derive(Clone, Copy, Debug, PartialEq, Eq, Structural)]
pub struct TickInput {
    /// `1_000_000 / intro_fps`, in microseconds; positive.
    pub intro_frame_duration_us: i64,
    /// `1_000_000 / loop_fps`, in microseconds; positive.
    pub loop_frame_duration_us: i64,
    /// True when advancing the intro video this tick found no frame.
    pub intro_exhausted: bool,
}

/// Outside work one tick asks for.
#[derive(Clone, Copy, Debug, PartialEq, Eq, Structural)]
pub struct TickEffects {
    /// Seek the intro video back to its first frame.
    pub seek_intro_to_start: bool,
    /// Seek the loop video back to its first frame.
    pub seek_loop_to_start: bool,
    /// The machine consumed `intro_exhausted`: the intro video was to
    /// be advanced this tick.
    pub advance_intro_frame: bool,
    /// Advance the loop video by one frame.
    pub advance_loop_frame: bool,
    /// Send a state update on the control channel (every tenth tick).
    pub send_state_update: bool,
}

/// No outside work.
pub open spec fn spec_no_effects() -> TickEffects {
    TickEffects {
        seek_intro_to_start: false,
        seek_loop_to_start: false,
        advance_intro_frame: false,
        advance_loop_frame: false,
        send_state_update: false,
    }
}

/// Outside work a control command or a configuration load asks for.
#[derive(Clone, Copy, Debug, PartialEq, Eq, Structural)]
pub struct CommandEffects {
    /// Seek the intro video back to its first frame.
    pub seek_intro_to_start: bool,
    /// Seek the loop video back to its first frame.
    pub seek_loop_to_start: bool,
    /// Drop and reload the video sources.
    pub reset_videos: bool,
}


/// The simulator: the firmware timing table, the loaded material, the
/// aggregate playback state and the UI's transition selections.
pub struct Simulator {
    /// Firmware timing table.
    pub firmware_config: FirmwareConfig,
    /// Loaded material configuration, if any.
    pub epconfig: Option<EPConfig>,
    /// Aggregate playback state.
    pub state: SimulatorState,
    /// Selector index of the entry transition.
    pub selected_transition_in: usize,
    /// Selector index of the loop transition.
    pub selected_transition_loop: usize,
    /// Characters of the operator name, for the typewriter clamp.
    pub name_len: usize,
    /// Characters of the operator code.
    pub code_len: usize,
    /// Characters of the staff text.
    pub staff_len: usize,
    /// Characters of the auxiliary text.
    pub aux_len: usize,
}

impl Simulator {
    /// The machine's standing well-formedness: a sane timing table and
    /// the animation invariants every tick preserves.
    pub open spec fn wf(self) -> bool {
        &&& self.firmware_config.wf()
        &&& 0 <= self.state.animation.arrow_y <= ARROW_HEIGHT
        &&& 0 <= self.state.intro_frame_accumulator
        &&& 0 <= self.state.loop_frame_accumulator
    }

    /// Frame budget of the next transition: three times the material's
    /// per-phase duration in frames when it supplies a positive one,
    /// else the firmware default.
    pub open spec fn spec_transition_frames(self, is_intro: bool) -> int {
        let fps = self.firmware_config.animation.fps as int;
        match self.epconfig {
            Some(c) => {
                let duration = if is_intro {
                    c.spec_transition_in_duration()
                } else {
                    c.spec_transition_loop_duration()
                };
                if duration > 0 {
                    3 * spec_ms_to_frames(spec_clamp_duration(duration), fps)
                } else {
                    self.firmware_config.transition.default_frames as int
                }
            },
            None => self.firmware_config.transition.default_frames as int,
        }
    }

    /// Frame budget of the next transition.
    pub fn get_transition_frames(&self, is_intro: bool) -> (r: u32)
        requires
            self.firmware_config.wf(),
        ensures
            r == self.spec_transition_frames(is_intro),
    {
        let fps = self.firmware_config.fps();
        let default_frames = self.firmware_config.transition.default_frames;
        match &self.epconfig {
            Some(config) => {
                let duration = if is_intro {
                    config.get_transition_in_duration()
                } else {
                    config.get_transition_loop_duration()
                };
                if duration > 0 {
                    let stage_frames = clamped_ms_to_frames(duration, fps);
                    stage_frames * 3
                } else {
                    default_frames
                }
            },
            None => default_frames,
        }
    }

    /// The transition kind a selector index names.
    pub fn transition_type_from_index(index: usize) -> (r: TransitionType)
        ensures
            r == spec_type_from_index(index as int),
    {
        match index {
            0 => TransitionType::Fade,
            1 => TransitionType::Move,
            2 => TransitionType::Swipe,
            _ => TransitionType::NoEffect,
        }
    }

    /// The selector index of a transition kind.
    pub fn transition_type_to_index(trans_type: TransitionType) -> (r: usize)
        ensures
            r == spec_index_from_type(trans_type),
    {
        match trans_type {
            TransitionType::Fade => 0,
            TransitionType::Move => 1,
            TransitionType::Swipe => 2,
            TransitionType::NoEffect => 3,
        }
    }

    /// A fresh simulator over the default firmware table, with no
    /// material loaded.
    pub fn new() -> (r: Self)
        ensures
            r.wf(),
            r.firmware_config == FirmwareConfig::spec_default(),
            r.epconfig is None,
            r.state == SimulatorState::spec_initial(),
            r.selected_transition_in == 0,
            r.selected_transition_loop == 0,
            r.name_len == 0 && r.code_len == 0 && r.staff_len == 0 && r.aux_len == 0,
    {
        Simulator {
            firmware_config: FirmwareConfig::get_default(),
            epconfig: None,
            state: SimulatorState::new(),
            selected_transition_in: 0,
            selected_transition_loop: 0,
            name_len: 0,
            code_len: 0,
            staff_len: 0,
            aux_len: 0,
        }
    }

    /// Load a material configuration: take its appear time, transition
    /// selections and overlay text lengths, and reset playback. The
    /// caller reloads the video sources.
    pub fn load_config(&mut self, config: EPConfig) -> (eff: CommandEffects)
        requires
            old(self).wf(),
        ensures
            final(self).wf(),
            final(self).firmware_config == old(self).firmware_config,
            final(self).epconfig == Some(config),
            final(self).state == (SimulatorState {
                appear_time_frames: spec_ms_to_frames(
                    spec_clamp_duration(config.spec_appear_time()),
                    old(self).firmware_config.animation.fps as int,
                ) as u32,
                is_first_switch: old(self).state.is_first_switch,
                ..SimulatorState::spec_initial()
            }),
            final(self).selected_transition_in == (
            if config.spec_transition_in_type() != TransitionType::NoEffect {
                spec_index_from_type(config.spec_transition_in_type())
            } else {
                old(self).selected_transition_in as int
            }),
            final(self).selected_transition_loop == (
            if config.spec_transition_loop_type() != TransitionType::NoEffect {
                spec_index_from_type(config.spec_transition_loop_type())
            } else {
                old(self).selected_transition_loop as int
            }),
            final(self).name_len == spec_overlay_name_len(config),
            final(self).code_len == spec_overlay_code_len(config),
            final(self).staff_len == spec_overlay_staff_len(config),
            final(self).aux_len == spec_overlay_aux_len(config),
            eff == (CommandEffects {
                seek_intro_to_start: false,
                seek_loop_to_start: false,
                reset_videos: true,
            }),
    {
        let appear_us = config.get_appear_time();
        let appear_frames = clamped_ms_to_frames(appear_us, self.firmware_config.fps());

        let trans_in = config.get_transition_in_type();
        if !matches!(trans_in, TransitionType::NoEffect) {
            self.selected_transition_in = Simulator::transition_type_to_index(trans_in);
        }
        let trans_loop = config.get_transition_loop_type();
        if !matches!(trans_loop, TransitionType::NoEffect) {
            self.selected_transition_loop = Simulator::transition_type_to_index(trans_loop);
        }

        let (name_len, code_len, staff_len, aux_len) = overlay_text_lengths(&config);
        self.name_len = name_len;
        self.code_len = code_len;
        self.staff_len = staff_len;
        self.aux_len = aux_len;

        self.epconfig = Some(config);
        self.state.reset();
        self.state.appear_time_frames = appear_frames;

        CommandEffects { seek_intro_to_start: false, seek_loop_to_start: false, reset_videos: true }
    }

    /// Begin a playback run. The requested kind is the selected entry
    /// transition when an intro exists, else the selected loop
    /// transition; the process's first transition is forced to SWIPE.
    /// The caller seeks the videos the effects name.
    pub fn start_playback(&mut self, has_intro: bool) -> (eff: CommandEffects)
        requires
            old(self).wf(),
        ensures
            final(self).wf(),
            *final(self) == (Simulator { state: old(self).spec_start_playback(has_intro), ..*old(self) }),
            eff == (CommandEffects {
                seek_intro_to_start: has_intro,
                seek_loop_to_start: true,
                reset_videos: false,
            }),
    {
        let sel = if has_intro {
            self.selected_transition_in
        } else {
            self.selected_transition_loop
        };
        let transition_type = Simulator::transition_type_from_index(sel);
        let total_frames = self.get_transition_frames(has_intro);

        self.state.start_playback(has_intro, transition_type, total_frames);

        self.state.loop_frame_accumulator = 0;
        self.state.intro_frame_accumulator = 0;

        CommandEffects {
            seek_intro_to_start: has_intro,
            seek_loop_to_start: true,
            reset_videos: false,
        }
    }

    /// The state a playback start moves the machine to.
    pub open spec fn spec_start_playback(self, has_intro: bool) -> SimulatorState {
        let requested = spec_type_from_index(
            if has_intro {
                self.selected_transition_in as int
            } else {
                self.selected_transition_loop as int
            },
        );
        SimulatorState {
            play_state: if has_intro {
                PlayState::TransitionIn
            } else {
                PlayState::TransitionLoop
            },
            frame_counter: 0,
            is_playing: true,
            is_first_switch: false,
            transition: TransitionState {
                frame: 0,
                total_frames: self.spec_transition_frames(has_intro) as u32,
                transition_type: if self.state.is_first_switch {
                    TransitionType::Swipe
                } else {
                    requested
                },
                video_switched: false,
            },
            animation: AnimationState::spec_initial(),
            loop_frame_accumulator: 0,
            intro_frame_accumulator: 0,
            ..self.state
        }
    }

    /// Stop playback and return to `Idle`, keeping the configured
    /// appear time and the forced-swipe latch. The caller resets its
    /// video sources.
    pub fn reset_playback(&mut self) -> (eff: CommandEffects)
        requires
            old(self).wf(),
        ensures
            final(self).wf(),
            *final(self) == (Simulator {
                state: SimulatorState {
                    appear_time_frames: old(self).state.appear_time_frames,
                    is_first_switch: old(self).state.is_first_switch,
                    ..SimulatorState::spec_initial()
                },
                ..*old(self)
            }),
            eff == (CommandEffects {
                seek_intro_to_start: false,
                seek_loop_to_start: false,
                reset_videos: true,
            }),
    {
        self.state.reset();
        CommandEffects { seek_intro_to_start: false, seek_loop_to_start: false, reset_videos: true }
    }

    /// Apply a control command. `has_intro` says whether the caller's
    /// video source has an intro; `Play` starts a run from `Idle` and
    /// resumes otherwise, `SeekTo` with an unknown identifier is
    /// ignored.
    pub fn handle_command(&mut self, cmd: ControlCommand, has_intro: bool) -> (eff: CommandEffects)
        requires
            old(self).wf(),
        ensures
            final(self).wf(),
            final(self).firmware_config == old(self).firmware_config,
            final(self).epconfig == old(self).epconfig,
            final(self).selected_transition_in == old(self).selected_transition_in,
            final(self).selected_transition_loop == old(self).selected_transition_loop,
            cmd == ControlCommand::Play && old(self).state.play_state == PlayState::Idle ==> (
            final(self).state == old(self).spec_start_playback(has_intro) && eff == (
            CommandEffects {
                seek_intro_to_start: has_intro,
                seek_loop_to_start: true,
                reset_videos: false,
            })),
            cmd == ControlCommand::Play && old(self).state.play_state != PlayState::Idle ==> (
            final(self).state == (SimulatorState { is_playing: true, ..old(self).state }) && eff
                == no_command_effects()),
            cmd == ControlCommand::Pause ==> (final(self).state == (SimulatorState {
                is_playing: false,
                ..old(self).state
            }) && eff == no_command_effects()),
            (cmd == ControlCommand::Stop || cmd == ControlCommand::Reset) ==> (final(self).state
                == (SimulatorState {
                appear_time_frames: old(self).state.appear_time_frames,
                is_first_switch: old(self).state.is_first_switch,
                ..SimulatorState::spec_initial()
            }) && eff == (CommandEffects {
                seek_intro_to_start: false,
                seek_loop_to_start: false,
                reset_videos: true,
            })),
            forall|id: u8|
                cmd == ControlCommand::SeekTo(id) ==> #[trigger] seek_outcome(
                    old(self).state,
                    final(self).state,
                    id,
                ) && eff == no_command_effects(),
    {
        match cmd {
            ControlCommand::Play => {
                if matches!(self.state.play_state, PlayState::Idle) {
                    self.start_playback(has_intro)
                } else {
                    self.state.resume();
                    CommandEffects {
                        seek_intro_to_start: false,
                        seek_loop_to_start: false,
                        reset_videos: false,
                    }
                }
            },
            ControlCommand::Pause => {
                self.state.pause();
                CommandEffects {
                    seek_intro_to_start: false,
                    seek_loop_to_start: false,
                    reset_videos: false,
                }
            },
            ControlCommand::Stop | ControlCommand::Reset => self.reset_playback(),
            ControlCommand::SeekTo(id) => {
                match PlayState::from_u8(id) {
                    Some(play_state) => {
                        self.state.play_state = play_state;
                    },
                    None => {},
                }
                CommandEffects {
                    seek_intro_to_start: false,
                    seek_loop_to_start: false,
                    reset_videos: false,
                }
            },
        }
    }

    /// Choose the transition effects by their control-channel names.
    pub fn set_transition(&mut self, transition_in: &str, transition_loop: &str)
        ensures
            *final(self) == (Simulator {
                selected_transition_in: spec_index_from_name(transition_in@) as usize,
                selected_transition_loop: spec_index_from_name(transition_loop@) as usize,
                ..*old(self)
            }),
    {
        self.selected_transition_in = if str_eq(transition_in, "fade") {
            0
        } else if str_eq(transition_in, "move") {
            1
        } else if str_eq(transition_in, "swipe") {
            2
        } else {
            3
        };
        self.selected_transition_loop = if str_eq(transition_loop, "fade") {
            0
        } else if str_eq(transition_loop, "move") {
            1
        } else if str_eq(transition_loop, "swipe") {
            2
        } else {
            3
        };
    }
}

/// No outside work from a command.
pub open spec fn no_command_effects() -> CommandEffects {
    CommandEffects { seek_intro_to_start: false, seek_loop_to_start: false, reset_videos: false }
}

/// What `SeekTo(id)` does: jumps to the state `id` names, and is
/// ignored for an unknown identifier.
pub open spec fn seek_outcome(before: SimulatorState, after: SimulatorState, id: u8) -> bool {
    if id <= 5 {
        after == (SimulatorState { play_state: after.play_state, ..before })
            && after.play_state.spec_as_u8() == id
    } else {
        after == before
    }
}

/// Characters of the operator name the material shows; zero without
/// the operator-info overlay.
pub open spec fn spec_overlay_name_len(c: EPConfig) -> int {
    match c.overlay {
        Some(o) => if o.overlay_type == OverlayType::Arknights
            && o.arknights is Some {
            o.arknights->0.operator_name@.len() as int
        } else {
            0
        },
        None => 0,
    }
}

/// Characters of the operator code the material shows.
pub open spec fn spec_overlay_code_len(c: EPConfig) -> int {
    match c.overlay {
        Some(o) => if o.overlay_type == OverlayType::Arknights
            && o.arknights is Some {
            o.arknights->0.operator_code@.len() as int
        } else {
            0
        },
        None => 0,
    }
}

/// Characters of the staff text the material shows.
pub open spec fn spec_overlay_staff_len(c: EPConfig) -> int {
    match c.overlay {
        Some(o) => if o.overlay_type == OverlayType::Arknights
            && o.arknights is Some {
            o.arknights->0.staff_text@.len() as int
        } else {
            0
        },
        None => 0,
    }
}

/// Characters of the auxiliary text the material shows.
pub open spec fn spec_overlay_aux_len(c: EPConfig) -> int {
    match c.overlay {
        Some(o) => if o.overlay_type == OverlayType::Arknights
            && o.arknights is Some {
            o.arknights->0.aux_text@.len() as int
        } else {
            0
        },
        None => 0,
    }
}

/// Character counts of the four typewriter texts of a material.
fn overlay_text_lengths(config: &EPConfig) -> (r: (usize, usize, usize, usize))
    ensures
        r.0 == spec_overlay_name_len(*config),
        r.1 == spec_overlay_code_len(*config),
        r.2 == spec_overlay_staff_len(*config),
        r.3 == spec_overlay_aux_len(*config),
{
    match &config.overlay {
        Some(o) => {
            match o.arknights_options() {
                Some(a) => (
                    a.operator_name.as_str().unicode_len(),
                    a.operator_code.as_str().unicode_len(),
                    a.staff_text.as_str().unicode_len(),
                    a.aux_text.as_str().unicode_len(),
                ),
                None => (0, 0, 0, 0),
            }
        },
        None => (0, 0, 0, 0),
    }
}


/// One tick of a frame-sync accumulator: it gains a tick's worth of
/// microseconds and, when it reaches the video's frame duration, pays
/// one frame duration down and fires (the carry-over is kept).
pub open spec fn spec_acc_step(acc: int, dur: int) -> (int, bool) {
    let a = acc + TICK_INTERVAL_US;
    if a >= dur {
        (a - dur, true)
    } else {
        (a, false)
    }
}

/// One tick of an active transition: the frame advances, and the
/// video-switch latch fires the first time the Hold phase is observed.
pub open spec fn spec_transition_tick(t: TransitionState) -> (TransitionState, bool) {
    let t1 = TransitionState { frame: (t.frame + 1) as u32, ..t };
    let phase = TransitionPhase::spec_from_progress(t1.spec_progress());
    if phase == TransitionPhase::PhaseHold && !t1.video_switched {
        (TransitionState { video_switched: true, ..t1 }, true)
    } else {
        (t1, false)
    }
}

/// One tick in `TransitionIn`: the transition advances; the intro
/// video is sought at the Hold latch and again on completion, which
/// enters `Intro` with a cleared intro accumulator.
pub open spec fn spec_transition_in_step(s: SimulatorState) -> (SimulatorState, TickEffects) {
    let tick = spec_transition_tick(s.transition);
    let t = tick.0;
    if t.frame >= t.total_frames {
        (
            SimulatorState {
                play_state: PlayState::Intro,
                transition: t,
                intro_frame_accumulator: 0,
                ..s
            },
            TickEffects { seek_intro_to_start: true, ..spec_no_effects() },
        )
    } else {
        (
            SimulatorState { transition: t, ..s },
            TickEffects { seek_intro_to_start: tick.1, ..spec_no_effects() },
        )
    }
}

/// One tick in `Intro`: the accumulator gates the intro video; when it
/// fires and the intro is exhausted, a loop transition of the given
/// kind and budget is armed.
pub open spec fn spec_intro_step(
    s: SimulatorState,
    input: TickInput,
    loop_kind: TransitionType,
    loop_total: int,
) -> (SimulatorState, TickEffects) {
    let step = spec_acc_step(s.intro_frame_accumulator as int, input.intro_frame_duration_us as int);
    let acc = step.0;
    if step.1 {
        if input.intro_exhausted {
            (
                SimulatorState {
                    play_state: PlayState::TransitionLoop,
                    intro_frame_accumulator: acc as i64,
                    transition: TransitionState {
                        frame: 0,
                        total_frames: loop_total as u32,
                        transition_type: loop_kind,
                        video_switched: false,
                    },
                    ..s
                },
                TickEffects { advance_intro_frame: true, ..spec_no_effects() },
            )
        } else {
            (
                SimulatorState { intro_frame_accumulator: acc as i64, ..s },
                TickEffects { advance_intro_frame: true, ..spec_no_effects() },
            )
        }
    } else {
        (SimulatorState { intro_frame_accumulator: acc as i64, ..s }, spec_no_effects())
    }
}

/// One tick in `TransitionLoop`: like `TransitionIn`, but the loop
/// video is sought, and completion enters `PreOpinfo` with cleared
/// wait counter and loop accumulator.
pub open spec fn spec_transition_loop_step(s: SimulatorState) -> (SimulatorState, TickEffects) {
    let tick = spec_transition_tick(s.transition);
    let t = tick.0;
    if t.frame >= t.total_frames {
        (
            SimulatorState {
                play_state: PlayState::PreOpinfo,
                transition: t,
                pre_opinfo_counter: 0,
                loop_frame_accumulator: 0,
                ..s
            },
            TickEffects { seek_loop_to_start: true, ..spec_no_effects() },
        )
    } else {
        (
            SimulatorState { transition: t, ..s },
            TickEffects { seek_loop_to_start: tick.1, ..spec_no_effects() },
        )
    }
}

/// One tick in `PreOpinfo`: the wait counter and the loop video
/// advance; once the counter reaches the appear time the machine
/// enters `Loop` with a fresh animation state.
pub open spec fn spec_pre_opinfo_step(s: SimulatorState, input: TickInput) -> (
    SimulatorState,
    TickEffects,
) {
    let pre = (s.pre_opinfo_counter + 1) as u32;
    let step = spec_acc_step(s.loop_frame_accumulator as int, input.loop_frame_duration_us as int);
    let eff = TickEffects { advance_loop_frame: step.1, ..spec_no_effects() };
    if pre >= s.appear_time_frames {
        (
            SimulatorState {
                play_state: PlayState::Loop,
                pre_opinfo_counter: pre,
                loop_frame_accumulator: step.0 as i64,
                animation: AnimationState::spec_initial(),
                ..s
            },
            eff,
        )
    } else {
        (
            SimulatorState {
                pre_opinfo_counter: pre,
                loop_frame_accumulator: step.0 as i64,
                ..s
            },
            eff,
        )
    }
}

/// One tick in `Loop`: the loop video advances under its accumulator
/// and the animation clock runs.
pub open spec fn spec_loop_step(
    s: SimulatorState,
    input: TickInput,
    cfg: FirmwareConfig,
    name_len: int,
    code_len: int,
    staff_len: int,
    aux_len: int,
) -> (SimulatorState, TickEffects) {
    let step = spec_acc_step(s.loop_frame_accumulator as int, input.loop_frame_duration_us as int);
    (
        SimulatorState {
            loop_frame_accumulator: step.0 as i64,
            animation: spec_clock_update(cfg, s.animation, name_len, code_len, staff_len, aux_len),
            ..s
        },
        TickEffects { advance_loop_frame: step.1, ..spec_no_effects() },
    )
}

impl Simulator {
    /// The state and effects one tick produces: nothing while paused;
    /// otherwise the global frame counter advances, the current state's
    /// step runs, and every tenth tick asks for a state update.
    pub open spec fn spec_advance(self, input: TickInput) -> (SimulatorState, TickEffects) {
        if !self.state.is_playing {
            (self.state, spec_no_effects())
        } else {
            let s1 = SimulatorState {
                frame_counter: (self.state.frame_counter + 1) as u64,
                ..self.state
            };
            let sp = match s1.play_state {
                PlayState::TransitionIn => spec_transition_in_step(s1),
                PlayState::Intro => spec_intro_step(
                    s1,
                    input,
                    spec_type_from_index(self.selected_transition_loop as int),
                    self.spec_transition_frames(false),
                ),
                PlayState::TransitionLoop => spec_transition_loop_step(s1),
                PlayState::PreOpinfo => spec_pre_opinfo_step(s1, input),
                PlayState::Loop => spec_loop_step(
                    s1,
                    input,
                    self.firmware_config,
                    self.name_len as int,
                    self.code_len as int,
                    self.staff_len as int,
                    self.aux_len as int,
                ),
                PlayState::Idle => (s1, spec_no_effects()),
            };
            (sp.0, TickEffects { send_state_update: sp.0.frame_counter % 10 == 0, ..sp.1 })
        }
    }

    /// Whether this tick will consume an intro video frame, so the
    /// caller can advance the intro first and report the outcome in
    /// `TickInput::intro_exhausted`.
    pub fn intro_advance_due(&self, intro_frame_duration_us: i64) -> (r: bool)
        requires
            self.state.intro_frame_accumulator <= i64::MAX - TICK_INTERVAL_US,
        ensures
            r == (self.state.is_playing && self.state.play_state == PlayState::Intro
                && self.state.intro_frame_accumulator + TICK_INTERVAL_US
                >= intro_frame_duration_us),
    {
        self.state.is_playing && matches!(self.state.play_state, PlayState::Intro)
            && self.state.intro_frame_accumulator + TICK_INTERVAL_US >= intro_frame_duration_us
    }

    fn process_transition_in(&mut self) -> (eff: TickEffects)
        requires
            old(self).state.transition.frame < 0xffff_ffffu32,
        ensures
            *final(self) == (Simulator {
                state: spec_transition_in_step(old(self).state).0,
                ..*old(self)
            }),
            eff == spec_transition_in_step(old(self).state).1,
    {
        self.state.transition.frame = self.state.transition.frame + 1;
        let phase = self.state.transition.phase();
        let mut seek_intro = false;

        if matches!(phase, TransitionPhase::PhaseHold) && !self.state.transition.video_switched {
            self.state.transition.video_switched = true;
            seek_intro = true;
        }

        if self.state.transition.is_complete() {
            self.state.play_state = PlayState::Intro;
            self.state.intro_frame_accumulator = 0;
            seek_intro = true;
        }

        TickEffects { seek_intro_to_start: seek_intro, ..no_effects() }
    }

    fn process_intro(&mut self, input: &TickInput) -> (eff: TickEffects)
        requires
            old(self).firmware_config.wf(),
            0 <= old(self).state.intro_frame_accumulator <= i64::MAX - TICK_INTERVAL_US,
            0 < input.intro_frame_duration_us,
        ensures
            *final(self) == (Simulator {
                state: spec_intro_step(
                    old(self).state,
                    *input,
                    spec_type_from_index(old(self).selected_transition_loop as int),
                    old(self).spec_transition_frames(false),
                ).0,
                ..*old(self)
            }),
            eff == spec_intro_step(
                old(self).state,
                *input,
                spec_type_from_index(old(self).selected_transition_loop as int),
                old(self).spec_transition_frames(false),
            ).1,
    {
        let frame_duration_us = input.intro_frame_duration_us;
        self.state.intro_frame_accumulator = self.state.intro_frame_accumulator + TICK_INTERVAL_US;

        if self.state.intro_frame_accumulator >= frame_duration_us {
            self.state.intro_frame_accumulator = self.state.intro_frame_accumulator
                - frame_duration_us;
            if input.intro_exhausted {
                let transition_type = Simulator::transition_type_from_index(
                    self.selected_transition_loop,
                );
                let total_frames = self.get_transition_frames(false);
                self.state.play_state = PlayState::TransitionLoop;
                self.state.transition.reset(transition_type, total_frames);
            }
            TickEffects { advance_intro_frame: true, ..no_effects() }
        } else {
            no_effects()
        }
    }

    fn process_transition_loop(&mut self) -> (eff: TickEffects)
        requires
            old(self).state.transition.frame < 0xffff_ffffu32,
        ensures
            *final(self) == (Simulator {
                state: spec_transition_loop_step(old(self).state).0,
                ..*old(self)
            }),
            eff == spec_transition_loop_step(old(self).state).1,
    {
        self.state.transition.frame = self.state.transition.frame + 1;
        let phase = self.state.transition.phase();
        let mut seek_loop = false;

        if matches!(phase, TransitionPhase::PhaseHold) && !self.state.transition.video_switched {
            self.state.transition.video_switched = true;
            seek_loop = true;
        }

        if self.state.transition.is_complete() {
            self.state.play_state = PlayState::PreOpinfo;
            self.state.pre_opinfo_counter = 0;
            self.state.loop_frame_accumulator = 0;
            seek_loop = true;
        }

        TickEffects { seek_loop_to_start: seek_loop, ..no_effects() }
    }

    fn process_pre_opinfo(&mut self, input: &TickInput) -> (eff: TickEffects)
        requires
            old(self).state.pre_opinfo_counter < 0xffff_ffffu32,
            0 <= old(self).state.loop_frame_accumulator <= i64::MAX - TICK_INTERVAL_US,
            0 < input.loop_frame_duration_us,
        ensures
            *final(self) == (Simulator {
                state: spec_pre_opinfo_step(old(self).state, *input).0,
                ..*old(self)
            }),
            eff == spec_pre_opinfo_step(old(self).state, *input).1,
    {
        self.state.pre_opinfo_counter = self.state.pre_opinfo_counter + 1;

        let frame_duration_us = input.loop_frame_duration_us;
        self.state.loop_frame_accumulator = self.state.loop_frame_accumulator + TICK_INTERVAL_US;
        let mut advance_loop = false;
        if self.state.loop_frame_accumulator >= frame_duration_us {
            self.state.loop_frame_accumulator = self.state.loop_frame_accumulator
                - frame_duration_us;
            advance_loop = true;
        }

        if self.state.pre_opinfo_counter >= self.state.appear_time_frames {
            self.state.play_state = PlayState::Loop;
            self.state.animation.reset();
        }

        TickEffects { advance_loop_frame: advance_loop, ..no_effects() }
    }

    fn process_loop(&mut self, input: &TickInput) -> (eff: TickEffects)
        requires
            old(self).firmware_config.wf(),
            old(self).state.animation.frame_counter < 0xffff_ffffu32,
            0 <= old(self).state.animation.arrow_y <= ARROW_HEIGHT,
            0 <= old(self).state.loop_frame_accumulator <= i64::MAX - TICK_INTERVAL_US,
            0 < input.loop_frame_duration_us,
        ensures
            *final(self) == (Simulator {
                state: spec_loop_step(
                    old(self).state,
                    *input,
                    old(self).firmware_config,
                    old(self).name_len as int,
                    old(self).code_len as int,
                    old(self).staff_len as int,
                    old(self).aux_len as int,
                ).0,
                ..*old(self)
            }),
            eff == spec_loop_step(
                old(self).state,
                *input,
                old(self).firmware_config,
                old(self).name_len as int,
                old(self).code_len as int,
                old(self).staff_len as int,
                old(self).aux_len as int,
            ).1,
            0 < final(self).state.animation.arrow_y <= ARROW_HEIGHT,
    {
        let frame_duration_us = input.loop_frame_duration_us;
        self.state.loop_frame_accumulator = self.state.loop_frame_accumulator + TICK_INTERVAL_US;
        let mut advance_loop = false;
        if self.state.loop_frame_accumulator >= frame_duration_us {
            self.state.loop_frame_accumulator = self.state.loop_frame_accumulator
                - frame_duration_us;
            advance_loop = true;
        }

        let controller = AnimationController::new(self.firmware_config);
        controller.update(
            &mut self.state.animation,
            self.name_len,
            self.code_len,
            self.staff_len,
            self.aux_len,
        );

        TickEffects { advance_loop_frame: advance_loop, ..no_effects() }
    }

    /// Advance the machine by one tick.
    ///
    /// When playing, the global frame counter advances and the current
    /// state's step runs: transitions count their frames, the videos
    /// advance under their accumulators, and the animation clock runs
    /// in `Loop`. Every tenth tick asks for a state update. The caller
    /// performs the outside work the returned effects name, and must
    /// have advanced the intro video this tick (reporting the outcome
    /// in `input.intro_exhausted`) exactly when `intro_advance_due`
    /// said so.
    pub fn advance(&mut self, input: &TickInput) -> (eff: TickEffects)
        requires
            old(self).wf(),
            old(self).state.frame_counter < 0xffff_ffff_ffff_ffffu64,
            old(self).state.transition.frame < 0xffff_ffffu32,
            old(self).state.pre_opinfo_counter < 0xffff_ffffu32,
            old(self).state.animation.frame_counter < 0xffff_ffffu32,
            old(self).state.intro_frame_accumulator <= i64::MAX - TICK_INTERVAL_US,
            old(self).state.loop_frame_accumulator <= i64::MAX - TICK_INTERVAL_US,
            0 < input.intro_frame_duration_us,
            0 < input.loop_frame_duration_us,
        ensures
            final(self).wf(),
            *final(self) == (Simulator { state: old(self).spec_advance(*input).0, ..*old(self) }),
            eff == old(self).spec_advance(*input).1,
    {
        if !self.state.is_playing {
            return no_effects();
        }

        self.state.frame_counter = self.state.frame_counter + 1;

        let eff = match self.state.play_state {
            PlayState::TransitionIn => self.process_transition_in(),
            PlayState::Intro => self.process_intro(input),
            PlayState::TransitionLoop => self.process_transition_loop(),
            PlayState::PreOpinfo => self.process_pre_opinfo(input),
            PlayState::Loop => self.process_loop(input),
            PlayState::Idle => no_effects(),
        };

        let send = self.state.frame_counter % 10 == 0;
        TickEffects { send_state_update: send, ..eff }
    }
}

/// All effect flags cleared.
fn no_effects() -> (r: TickEffects)
    ensures
        r == spec_no_effects(),
{
    TickEffects {
        seek_intro_to_start: false,
        seek_loop_to_start: false,
        advance_intro_frame: false,
        advance_loop_frame: false,
        send_state_update: false,
    }
}


/// The first transition a process ever runs is forced to SWIPE,
/// whatever kind is selected; playback still enters the state the
/// intro's presence dictates.
pub proof fn first_transition_forced_swipe(sim: Simulator, has_intro: bool)
    requires
        sim.state.is_first_switch,
    ensures
        sim.spec_start_playback(has_intro).transition.transition_type == TransitionType::Swipe,
        sim.spec_start_playback(has_intro).play_state == (if has_intro {
            PlayState::TransitionIn
        } else {
            PlayState::TransitionLoop
        }),
{
}

/// Once the forced-swipe latch has been consumed — and a reset does
/// not re-arm it — every later start honors the selected kind.
pub proof fn later_runs_honor_selection(sim: Simulator, has_intro: bool)
    requires
        !sim.state.is_first_switch,
    ensures
        sim.spec_start_playback(has_intro).transition.transition_type == spec_type_from_index(
            if has_intro {
                sim.selected_transition_in as int
            } else {
                sim.selected_transition_loop as int
            },
        ),
{
}


/// The video-switch latch is one-shot: a transition tick fires it only
/// when it was clear, and once set it stays set for the instance's
/// life.
pub proof fn video_switch_latch_is_one_shot(t: TransitionState)
    ensures
        spec_transition_tick(t).1 ==> !t.video_switched && spec_transition_tick(t).0.video_switched,
        t.video_switched ==> spec_transition_tick(t).0.video_switched && !spec_transition_tick(t).1,
{
}

} // verus!




