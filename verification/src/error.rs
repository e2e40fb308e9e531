//! What can go wrong with a stream: the errors that end a rendering, and
//! the diagnostics that do not.

use vstd::prelude::*;
use crate::format::Feature;

verus! {

/// Something in the stream that was passed over while it was played.
#[derive(Debug, Clone, Copy, PartialEq, Eq)]
pub enum Diagnostic {
    /// The command at `cursor` asks for a feature that playback does not
    /// support; it was skipped.
    Unsupported { feature: Feature, cursor: usize },
    /// The byte at `cursor` is no command of the format, or on the
    /// percussion voice names no sample; it was skipped.
    Unknown { byte: u8, cursor: usize },
    /// A debug marker stands at `cursor`.
    DebugMarker { cursor: usize },
}

/// Why a command stream cannot be played.
#[derive(Debug, Clone, Copy, PartialEq, Eq)]
pub enum SynthError {
    /// The buffer is shorter than the eight bytes of the voice table.
    HeaderTooShort,
    /// A voice's cursor, or the argument byte of a function command, lies
    /// outside the buffer.
    CursorOutOfBounds,
    /// A macro call names a table entry that lies outside the buffer.
    MacroOutOfBounds,
    /// A loop start asks for zero iterations.
    ZeroLoopCount,
    /// A loop start would nest deeper than the loop stack allows.
    LoopStackOverflow,
    /// A loop end was met while no loop was open.
    LoopStackUnderflow,
    /// A voice ran through the whole command allowance of one fetch without
    /// reaching a note, a rest or its channel end.
    Runaway,
}

impl SynthError {
    /// The error in words, for a message to the user.
    pub fn describe(&self) -> (r: &'static str)
        ensures
            r@ == match *self {
                SynthError::HeaderTooShort => "the data is too short to hold the voice table"@,
                SynthError::CursorOutOfBounds => "a voice reads outside the data"@,
                SynthError::MacroOutOfBounds => "a macro call names an entry outside the data"@,
                SynthError::ZeroLoopCount => "a loop asks for zero iterations"@,
                SynthError::LoopStackOverflow => "loops are nested more than five deep"@,
                SynthError::LoopStackUnderflow => "a loop ends that was never begun"@,
                SynthError::Runaway => "a voice runs on without reaching a note"@,
            },
    {
        match self {
            SynthError::HeaderTooShort => "the data is too short to hold the voice table",
            SynthError::CursorOutOfBounds => "a voice reads outside the data",
            SynthError::MacroOutOfBounds => "a macro call names an entry outside the data",
            SynthError::ZeroLoopCount => "a loop asks for zero iterations",
            SynthError::LoopStackOverflow => "loops are nested more than five deep",
            SynthError::LoopStackUnderflow => "a loop ends that was never begun",
            SynthError::Runaway => "a voice runs on without reaching a note",
        }
    }
}

} // verus!
