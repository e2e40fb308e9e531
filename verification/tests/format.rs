use mmml_player::error::SynthError;
use mmml_player::format::{
    decode_command, read_be16, ticks_of, Command, Feature, AMPLITUDE, DC_OFFSET,
    DEFAULT_FREQUENCY, DEFAULT_OCTAVE, DEFAULT_VOLUME, MAX_DIAGNOSTICS, MAX_LOOPS, MAX_SAMPLES,
    NOTES, SAMPLES, SAMPLE_INDICES, SAMPLE_RATE, TOTAL_VOICES,
};

#[test]
fn constants_of_the_format() {
    assert_eq!(TOTAL_VOICES, 4);
    assert_eq!(MAX_LOOPS, 5);
    assert_eq!(MAX_SAMPLES, 1 << 30);
    assert_eq!(AMPLITUDE, 127);
    assert_eq!(DC_OFFSET, 0);
    assert_eq!(SAMPLE_RATE, 352_800);
    assert_eq!(MAX_DIAGNOSTICS, 4096);
    assert_eq!(DEFAULT_OCTAVE, 16);
    assert_eq!(DEFAULT_OCTAVE, 2 << 3);
    assert_eq!(DEFAULT_VOLUME, 1);
    assert_eq!(DEFAULT_FREQUENCY, 255);
    assert_eq!(NOTES.len(), 13);
    assert_eq!(NOTES[0], 255);
    assert_eq!(NOTES[1], 1644);
    assert_eq!(NOTES[12], 871);
    assert_eq!(SAMPLES.len(), 127);
    assert_eq!(SAMPLE_INDICES, [0, 19, 34, 74, 118, 126]);
}

#[test]
fn big_endian_numbers() {
    let data = [0x12u8, 0x34, 0x00, 0xFF, 0xFF];
    assert_eq!(read_be16(&data, 0), 0x1234);
    assert_eq!(read_be16(&data, 1), 0x3400);
    assert_eq!(read_be16(&data, 2), 0x00FF);
    assert_eq!(read_be16(&data, 3), 0xFFFF);
}

#[test]
fn tick_lengths() {
    let plain: [u8; 8] = [127, 63, 31, 15, 7, 3, 1, 0];
    let dotted: [u8; 8] = [95, 47, 23, 11, 5, 2, 1, 0];
    for param in 0u8..8 {
        assert_eq!(ticks_of(param), plain[param as usize]);
        assert_eq!(ticks_of(param + 8), dotted[param as usize]);
    }
}

#[test]
fn decode_rests_and_notes() {
    assert_eq!(decode_command(&[0x00], 0), Ok(Command::Rest { ticks: 127 }));
    assert_eq!(decode_command(&[0x0F], 0), Ok(Command::Rest { ticks: 0 }));
    assert_eq!(decode_command(&[0x09], 0), Ok(Command::Rest { ticks: 47 }));
    for pitch in 1u8..13 {
        assert_eq!(
            decode_command(&[0xAA, (pitch << 4) | 3], 1),
            Ok(Command::Note { pitch, ticks: 15 })
        );
    }
    assert_eq!(decode_command(&[0xC8], 0), Ok(Command::Note { pitch: 12, ticks: 95 }));
}

#[test]
fn decode_registers() {
    for param in 0u8..16 {
        assert_eq!(decode_command(&[0xD0 | param], 0), Ok(Command::SetOctave { param }));
        assert_eq!(decode_command(&[0xE0 | param], 0), Ok(Command::SetVolume { level: param }));
    }
}

#[test]
fn decode_function_commands() {
    let arg = 0x5A;
    let expected = [
        Command::LoopStart { count: arg },
        Command::LoopEnd,
        Command::MacroCall { id: arg },
        Command::SetTempo { arg },
        Command::Unsupported { feature: Feature::Transpose },
        Command::Unsupported { feature: Feature::Instrument },
        Command::Unsupported { feature: Feature::Tie },
        Command::Unsupported { feature: Feature::Panning },
        Command::Unknown,
        Command::Unknown,
        Command::Unknown,
        Command::Unknown,
        Command::Unknown,
        Command::Unknown,
        Command::DebugMarker,
        Command::ChannelEnd,
    ];
    for param in 0u8..16 {
        assert_eq!(decode_command(&[0xF0 | param, arg], 0), Ok(expected[param as usize]));
    }
}

#[test]
fn decode_outside_the_buffer() {
    assert_eq!(decode_command(&[], 0), Err(SynthError::CursorOutOfBounds));
    assert_eq!(decode_command(&[0x10], 1), Err(SynthError::CursorOutOfBounds));
    assert_eq!(decode_command(&[0x10], usize::MAX), Err(SynthError::CursorOutOfBounds));
    // A function command needs its argument byte, whatever it is.
    for param in 0u8..16 {
        assert_eq!(decode_command(&[0xF0 | param], 0), Err(SynthError::CursorOutOfBounds));
        assert_eq!(decode_command(&[0x00, 0xF0 | param], 1), Err(SynthError::CursorOutOfBounds));
    }
}

#[test]
fn widths_of_unsupported_commands() {
    assert_eq!(Feature::Transpose.width(), 2);
    assert_eq!(Feature::Instrument.width(), 2);
    assert_eq!(Feature::Tie.width(), 1);
    assert_eq!(Feature::Panning.width(), 2);
}
