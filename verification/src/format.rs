//! The binary command stream: its constants, its fixed tables and the
//! decoding of a single command.

use vstd::prelude::*;
use crate::error::SynthError;

verus! {

/// Number of voices; the last one is the percussion sampler.
pub const TOTAL_VOICES: usize = 4;

/// Index of the percussion voice.
pub const PERCUSSION: usize = 3;

/// Length of the voice table that opens the stream.
pub const HEADER_LEN: usize = 8;

/// Depth of the loop stack of a voice.
pub const MAX_LOOPS: usize = 5;

/// Audio ticks for which the sampler holds a bit once it has read it.
pub const SAMPLE_SPEED: u8 = 3;

/// Sample value of a voice whose output is high.
pub const AMPLITUDE: u8 = 127;

/// Sample value of silence.
pub const DC_OFFSET: u8 = 0;

/// Hard bound on the number of samples of one rendering.
pub const MAX_SAMPLES: usize = 1073741824;

/// Commands a voice may execute in one fetch before the stream is
/// given up as runaway.
pub const MAX_COMMANDS_PER_FETCH: u32 = 65536;

/// Diagnostics that one rendering keeps; what comes after them is only
/// counted.
pub const MAX_DIAGNOSTICS: usize = 4096;

/// Rate, in samples per second, at which the rendered stream is meant
/// to be played back.
pub const SAMPLE_RATE: u32 = 352800;

/// Phase increment of a voice before any octave command: that of octave
/// 3, `2 << 3`.
pub const DEFAULT_OCTAVE: u32 = 16;

/// Volume of a voice before any volume command: a square wave.
pub const DEFAULT_VOLUME: u8 = 1;

/// Period of a voice before any note.
pub const DEFAULT_FREQUENCY: u16 = 255;

/// Oscillator periods: entry 0 belongs to the rest, entries 1 to 12 are
/// one octave in equal temperament.
pub const NOTES: [u16; 13] = [
    255, 1644, 1551, 1464, 1382, 1305, 1231, 1162, 1097, 1035, 977, 922, 871,
];

/// Where each percussion sample begins in `SAMPLES`; the last entry
/// closes the last sample.
pub const SAMPLE_INDICES: [u8; 6] = [0, 19, 34, 74, 118, 126];

/// Number of percussion samples.
pub const SAMPLE_COUNT: u8 = 5;

/// Length of `SAMPLES`.
pub const SAMPLE_LENGTH: usize = 127;

/// Bit-packed percussion waveforms, least significant bit first.
pub const SAMPLES: [u8; 127] = [
    // bwoop
    0b10101010, 0b10110110, 0b10000111, 0b11111000,
    0b10000100, 0b00110111, 0b11101000, 0b11000001,
    0b00000111, 0b00111101, 0b11111000, 0b11100000,
    0b10010001, 0b10000111, 0b00000111, 0b00001111,
    0b00001111, 0b00011011, 0b00011110,
    // beep
    0b10101010, 0b00101010, 0b00110011, 0b00110011,
    0b00110011, 0b00110011, 0b00110011, 0b11001101,
    0b11001100, 0b11001100, 0b11001100, 0b10101100,
    0b10011001, 0b00110001, 0b00110011,
    // kick
    0b10010101, 0b10110010, 0b00000000, 0b11100011,
    0b11110000, 0b00000000, 0b11111111, 0b00000000,
    0b11111110, 0b00000000, 0b00000000, 0b00000000,
    0b11111111, 0b11111111, 0b11111111, 0b00100101,
    0b00000000, 0b00000000, 0b00000000, 0b00000000,
    0b11111111, 0b11110111, 0b11111111, 0b11111111,
    0b11111111, 0b10111111, 0b00010010, 0b00000000,
    0b10000000, 0b00000000, 0b00000000, 0b00000000,
    0b00000000, 0b11101110, 0b11111111, 0b11111111,
    0b11111111, 0b11110111, 0b11111111, 0b11111110,
    // snare
    0b10011010, 0b10011010, 0b10101010, 0b10010110,
    0b01110100, 0b10010101, 0b10001010, 0b11011110,
    0b01110100, 0b10100000, 0b11110111, 0b00100101,
    0b01110100, 0b01101000, 0b11111111, 0b01011011,
    0b01000001, 0b10000000, 0b11010100, 0b11111101,
    0b11011110, 0b00010010, 0b00000100, 0b00100100,
    0b11101101, 0b11111011, 0b01011011, 0b00100101,
    0b00000100, 0b10010001, 0b01101010, 0b11011111,
    0b01110111, 0b00010101, 0b00000010, 0b00100010,
    0b11010101, 0b01111010, 0b11101111, 0b10110110,
    0b00100100, 0b10000100, 0b10100100, 0b11011010,
    // hi-hat
    0b10011010, 0b01110100, 0b11010100, 0b00110011,
    0b00110011, 0b11101000, 0b11101000, 0b01010101,
    0b01010101,
];

/// What the format can ask for and playback does not do.
#[derive(Debug, Clone, Copy, PartialEq, Eq)]
pub enum Feature {
    Transpose,
    Instrument,
    Tie,
    Panning,
}

/// Number of bytes of the command that asks for `feature`: a tie has no
/// argument byte.
pub open spec fn width_of(feature: Feature) -> int {
    match feature {
        Feature::Tie => 1,
        _ => 2,
    }
}

impl Feature {
    /// Number of bytes of the command that asks for this feature.
    pub fn width(&self) -> (r: usize)
        ensures
            r == width_of(*self),
    {
        match self {
            Feature::Tie => 1,
            _ => 2,
        }
    }
}

/// One command of the stream, with the argument byte of a function
/// command already read.
#[derive(Debug, Clone, Copy, PartialEq, Eq)]
pub enum Command {
    /// Silence for `ticks` ticks.
    Rest { ticks: u8 },
    /// Note `pitch` (1 to 12) for `ticks` ticks; on the percussion voice
    /// `pitch` chooses the sample.
    Note { pitch: u8, ticks: u8 },
    /// Set the phase increment to `2 << param`.
    SetOctave { param: u8 },
    /// Set the volume to `level`.
    SetVolume { level: u8 },
    /// Open a loop that runs its body `count` times.
    LoopStart { count: u8 },
    /// Close the innermost loop.
    LoopEnd,
    /// Call macro `id`.
    MacroCall { id: u8 },
    /// Set the tick period to `arg << 3`.
    SetTempo { arg: u8 },
    /// Known to the format, not played.
    Unsupported { feature: Feature },
    /// Marker left for debugging; no effect.
    DebugMarker,
    /// A function command the format does not define.
    Unknown,
    /// Return from a macro, or the end of the voice's data.
    ChannelEnd,
}

/// The big-endian 16-bit number at `at`.
pub open spec fn be16(data: Seq<u8>, at: int) -> int {
    data[at] * 256 + data[at + 1]
}

/// Length in ticks that the low nibble of a note or rest encodes.
pub open spec fn note_ticks(param: u8) -> u8 {
    if param < 8 {
        0x7Fu8 >> param
    } else {
        95u8 >> (param & 7)
    }
}

/// The function command with sub-operation `param` and argument `arg`.
pub open spec fn function_command(param: u8, arg: u8) -> Command {
    if param == 0 {
        Command::LoopStart { count: arg }
    } else if param == 1 {
        Command::LoopEnd
    } else if param == 2 {
        Command::MacroCall { id: arg }
    } else if param == 3 {
        Command::SetTempo { arg }
    } else if param == 4 {
        Command::Unsupported { feature: Feature::Transpose }
    } else if param == 5 {
        Command::Unsupported { feature: Feature::Instrument }
    } else if param == 6 {
        Command::Unsupported { feature: Feature::Tie }
    } else if param == 7 {
        Command::Unsupported { feature: Feature::Panning }
    } else if param == 14 {
        Command::DebugMarker
    } else if param == 15 {
        Command::ChannelEnd
    } else {
        Command::Unknown
    }
}

/// The command at `cursor`: the high nibble of the byte is the operation,
/// the low nibble its parameter, and operation 15 reads one byte more.
pub open spec fn decode(data: Seq<u8>, cursor: int) -> Result<Command, SynthError> {
    if !(0 <= cursor < data.len()) {
        Err(SynthError::CursorOutOfBounds)
    } else {
        let op = data[cursor] / 16;
        let param = data[cursor] % 16;
        if op == 15 {
            if cursor + 1 >= data.len() {
                Err(SynthError::CursorOutOfBounds)
            } else {
                Ok(function_command(param, data[cursor + 1]))
            }
        } else if op == 13 {
            Ok(Command::SetOctave { param })
        } else if op == 14 {
            Ok(Command::SetVolume { level: param })
        } else if op == 0 {
            Ok(Command::Rest { ticks: note_ticks(param) })
        } else {
            Ok(Command::Note { pitch: op, ticks: note_ticks(param) })
        }
    }
}

/// Reads the big-endian 16-bit number at `at`.
pub fn read_be16(data: &[u8], at: usize) -> (r: usize)
    requires
        at + 1 < data.len(),
    ensures
        r == be16(data@, at as int),
{
    let hi: usize = data[at] as usize;
    let lo: usize = data[at + 1] as usize;
    hi * 256 + lo
}

/// Length in ticks of a note or rest whose low nibble is `param`.
pub fn ticks_of(param: u8) -> (r: u8)
    requires
        param < 16,
    ensures
        r == note_ticks(param),
{
    if param < 8 {
        0x7Fu8 >> param
    } else {
        assert(param & 7 < 8) by (bit_vector);
        95u8 >> (param & 7)
    }
}

/// Decodes the command at `cursor`.
pub fn decode_command(data: &[u8], cursor: usize) -> (r: Result<Command, SynthError>)
    ensures
        r == decode(data@, cursor as int),
{
    if cursor >= data.len() {
        return Err(SynthError::CursorOutOfBounds);
    }
    let byte: u8 = data[cursor];
    let op: u8 = byte / 16;
    let param: u8 = byte % 16;
    if op == 15 {
        if cursor + 1 >= data.len() {
            return Err(SynthError::CursorOutOfBounds);
        }
        let arg: u8 = data[cursor + 1];
        let cmd = if param == 0 {
            Command::LoopStart { count: arg }
        } else if param == 1 {
            Command::LoopEnd
        } else if param == 2 {
            Command::MacroCall { id: arg }
        } else if param == 3 {
            Command::SetTempo { arg }
        } else if param == 4 {
            Command::Unsupported { feature: Feature::Transpose }
        } else if param == 5 {
            Command::Unsupported { feature: Feature::Instrument }
        } else if param == 6 {
            Command::Unsupported { feature: Feature::Tie }
        } else if param == 7 {
            Command::Unsupported { feature: Feature::Panning }
        } else if param == 14 {
            Command::DebugMarker
        } else if param == 15 {
            Command::ChannelEnd
        } else {
            Command::Unknown
        };
        Ok(cmd)
    } else if op == 13 {
        Ok(Command::SetOctave { param })
    } else if op == 14 {
        Ok(Command::SetVolume { level: param })
    } else if op == 0 {
        Ok(Command::Rest { ticks: ticks_of(param) })
    } else {
        Ok(Command::Note { pitch: op, ticks: ticks_of(param) })
    }
}

} // verus!
