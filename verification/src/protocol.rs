//! Control channel message schema: the commands and messages the
//! simulator exchanges with an editor. The transport and its JSON
//! encoding live outside the library; these are the plain values.

use vstd::prelude::*;

use crate::epconfig::EPConfig;
use crate::state::PlayState;

verus! {

/// Error code: no error.
pub const ERROR_CODE_OK: i32 = 0;

/// Error code: the supplied configuration is invalid.
pub const ERROR_CODE_INVALID_CONFIG: i32 = 1;

/// Error code: a video source failed to load.
pub const ERROR_CODE_VIDEO_LOAD_FAILED: i32 = 2;

/// Error code: an internal failure, such as a malformed message.
pub const ERROR_CODE_INTERNAL_ERROR: i32 = 100;

/// Playback control command.
#[derive(Clone, Copy, Debug, PartialEq, Eq, Structural)]
pub enum ControlCommand {
    /// Start playback, or resume it when paused.
    Play,
    /// Pause playback.
    Pause,
    /// Stop and reset.
    Stop,
    /// Reset to the initial state.
    Reset,
    /// Jump to the state with the given identifier; unknown identifiers
    /// are ignored.
    SeekTo(u8),
}

/// A message on the control channel, in either direction.
#[derive(Clone, Debug)]
pub enum IpcMessage {
    /// Editor to simulator: load a material configuration rooted at
    /// `base_dir`.
    LoadConfig { config: EPConfig, base_dir: String },
    /// Editor to simulator: a playback control command.
    Control(ControlCommand),
    /// Editor to simulator: choose the transition effects by name
    /// (`fade`, `move` or `swipe`; anything else means none).
    SetTransition { transition_in: String, transition_loop: String },
    /// Editor to simulator: terminate the process.
    Shutdown,
    /// Simulator to editor: periodic state notification.
    StateUpdate { state: u8, frame: u64, is_playing: bool },
    /// Simulator to editor: emitted once at startup.
    Ready,
    /// Simulator to editor: a recoverable error.
    Error { code: i32, message: String },
}

impl IpcMessage {
    /// State notification for the given play state and counters.
    pub fn state_update(state: PlayState, frame: u64, is_playing: bool) -> (r: Self)
        ensures
            r == (IpcMessage::StateUpdate { state: state.spec_as_u8(), frame, is_playing }),
    {
        IpcMessage::StateUpdate { state: state.as_u8(), frame, is_playing }
    }

    /// The startup notification.
    pub fn ready() -> (r: Self)
        ensures
            r is Ready,
    {
        IpcMessage::Ready
    }

    /// An error message with the given code and text.
    pub fn error(code: i32, message: String) -> (r: Self)
        ensures
            r matches IpcMessage::Error { code: c, message: m } && c == code && m@ == message@,
    {
        IpcMessage::Error { code, message }
    }
}

} // verus!
