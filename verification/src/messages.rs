//! Message shapes carried by the command bus and the feedback channel,
//! and the errors the state operations report.

use vstd::prelude::*;

verus! {

/// A command from a control producer (performance-event decoder, console,
/// HTTP handler) to the audio renderer.
#[derive(Clone, Copy, Debug, PartialEq, Eq, Structural)]
pub enum ControlMessage {
    /// A key went down: raw note number and velocity, passed through to
    /// the renderer untouched.
    NoteOn { note: u8, velocity: u8 },
    /// A key went up.
    NoteOff { note: u8 },
    /// Stop `stop_index` is now enabled (`active == true`) or disabled on
    /// some virtual channel; the flag is the membership state after the
    /// edit that produced the message.
    StopToggle { stop_index: usize, active: bool },
    /// The console asked the process to shut down.
    Quit,
}

/// A line for the console: either a diagnostic log entry or an error
/// string for the dedicated error slot.
#[derive(Debug, PartialEq, Eq)]
pub enum FeedbackMessage {
    Log { text: String },
    Error { text: String },
}

/// Why a state mutation was rejected or could not be delivered.
#[derive(Clone, Copy, Debug, PartialEq, Eq, Structural)]
pub enum StateError {
    /// The stop index was not below the stop count.
    IndexOutOfRange,
    /// The virtual channel id was not in `0..=15`.
    InvalidChannel,
    /// The renderer side of the command bus has hung up; the state change
    /// itself was already committed.
    BusDisconnected,
}

impl StateError {
    /// A short description, for the console error slot and for callers
    /// that cannot format the variant themselves.
    pub fn describe(&self) -> (r: &'static str)
        ensures
            r@ == self.describe_spec(),
    {
        match self {
            StateError::IndexOutOfRange => "stop index out of range",
            StateError::InvalidChannel => "channel id out of range",
            StateError::BusDisconnected => "command bus disconnected",
        }
    }

    pub open spec fn describe_spec(&self) -> Seq<char> {
        match self {
            StateError::IndexOutOfRange => "stop index out of range"@,
            StateError::InvalidChannel => "channel id out of range"@,
            StateError::BusDisconnected => "command bus disconnected"@,
        }
    }
}

} // verus!
