use mmml_player::error::{Diagnostic, SynthError};
use mmml_player::format::Feature;
use mmml_player::mmml_engine::MMMLSynthesizer;

/// A voice that holds nothing but its channel end.
const EMPTY: &[u8] = &[0xFF];

/// Lays out a stream: the voice table, the macro table, the voices, the
/// macros and a terminator.
fn stream_with_macros(voices: [&[u8]; 4], macros: &[&[u8]]) -> Vec<u8> {
    let mut data = vec![0u8; 8 + 2 * macros.len()];
    for (v, body) in voices.iter().enumerate() {
        let at = data.len();
        data[2 * v] = (at >> 8) as u8;
        data[2 * v + 1] = at as u8;
        data.extend_from_slice(body);
    }
    for (id, body) in macros.iter().enumerate() {
        let at = data.len();
        data[8 + 2 * id] = (at >> 8) as u8;
        data[8 + 2 * id + 1] = at as u8;
        data.extend_from_slice(body);
    }
    data.push(0x00);
    data
}

fn stream(voices: [&[u8]; 4]) -> Vec<u8> {
    stream_with_macros(voices, &[])
}

/// The samples of one voice, tick by tick.
fn voice_samples(samples: &[u8], voice: usize) -> Vec<u8> {
    samples.iter().skip(voice).step_by(4).copied().collect()
}

fn render(data: &[u8]) -> Result<Vec<u8>, SynthError> {
    MMMLSynthesizer::new().generate_mmml(data)
}

#[test]
fn empty_song_is_one_tick() {
    let data: Vec<u8> = vec![0, 8, 0, 8, 0, 8, 0, 8, 0xFF, 0x00];
    let mut synth = MMMLSynthesizer::new();
    let samples = synth.generate_mmml(&data).unwrap();
    assert_eq!(samples, vec![0u8, 0, 0, 0]);
    assert_eq!(synth.tick_period(), 0);
    assert_eq!(synth.header_size(), 8);
    for v in 0..4 {
        assert_eq!(synth.channels[v].cursor(), 8);
    }
}

#[test]
fn empty_song_with_separate_voices_is_one_tick() {
    let data = stream([EMPTY, EMPTY, EMPTY, EMPTY]);
    assert_eq!(render(&data), Ok(vec![0u8, 0, 0, 0]));
}

#[test]
fn short_header_is_refused() {
    for len in 0..8 {
        let data = vec![0u8; len];
        let mut synth = MMMLSynthesizer::new();
        assert_eq!(synth.generate_mmml(&data), Err(SynthError::HeaderTooShort));
        assert_eq!(synth.initialize(&data), Err(SynthError::HeaderTooShort));
    }
}

#[test]
fn initialize_reads_the_voice_table() {
    let data: Vec<u8> = vec![0x00, 0x08, 0x01, 0x02, 0xFF, 0xFE, 0x00, 0x09, 0xFF, 0x00];
    let mut synth = MMMLSynthesizer::new();
    assert_eq!(synth.initialize(&data), Ok(()));
    assert_eq!(synth.channels[0].cursor(), 8);
    assert_eq!(synth.channels[1].cursor(), 0x0102);
    assert_eq!(synth.channels[2].cursor(), 0xFFFE);
    assert_eq!(synth.channels[3].cursor(), 9);
    assert_eq!(synth.header_size(), 8);
}

#[test]
fn fresh_voice_has_the_default_registers() {
    let synth = MMMLSynthesizer::new();
    for v in 0..4 {
        let voice = &synth.channels[v];
        assert_eq!(voice.cursor(), 0);
        assert_eq!(voice.octave(), 16);
        assert_eq!(voice.volume(), 1);
        assert_eq!(voice.remaining_ticks(), 0);
        assert_eq!(voice.loop_depth(), 0);
        assert_eq!(voice.return_cursor(), None);
        assert_eq!(voice.frequency(), 255);
        assert_eq!(voice.duty_threshold(), 0);
        assert_eq!(voice.phase(), 0);
        assert_eq!(voice.output_level(), 0);
        assert!(!voice.muted());
        assert!(!voice.is_muted);
    }
    assert_eq!(synth.tick_period(), 0);
    assert_eq!(synth.tick_countdown(), 0);
    assert_eq!(synth.unsupported_commands(), 0);
    assert_eq!(synth.unknown_commands(), 0);
}

#[test]
fn cursor_behind_the_buffer_is_refused() {
    let data: Vec<u8> = vec![0, 100, 0, 8, 0, 8, 0, 8, 0xFF, 0x00];
    assert_eq!(render(&data), Err(SynthError::CursorOutOfBounds));
}

#[test]
fn function_command_without_argument_byte_is_refused() {
    let data: Vec<u8> = vec![0, 8, 0, 8, 0, 8, 0, 8, 0xFF];
    assert_eq!(render(&data), Err(SynthError::CursorOutOfBounds));
}

#[test]
fn voice_that_runs_off_the_buffer_is_refused() {
    // An octave command and nothing behind it but the terminator, which is
    // a rest; behind the rest the buffer ends.
    let data = stream([EMPTY, EMPTY, EMPTY, &[0xD3]]);
    let mut synth = MMMLSynthesizer::new();
    assert_eq!(synth.generate_mmml(&data), Err(SynthError::CursorOutOfBounds));
    assert_eq!(synth.channels[3].octave(), 16);
    assert_eq!(synth.channels[3].cursor(), data.len());
}

#[test]
fn macro_entry_behind_the_buffer_is_refused() {
    let data = stream([&[0xF2, 0xFF], EMPTY, EMPTY, EMPTY]);
    assert_eq!(render(&data), Err(SynthError::MacroOutOfBounds));
}

#[test]
fn macro_entry_cut_by_the_end_of_the_buffer_is_refused() {
    // Entry 1 would lie at offsets 10 and 11; the buffer ends at 11.
    let data: Vec<u8> = vec![0, 8, 0, 10, 0, 10, 0, 10, 0xF2, 0x01, 0xFF];
    assert_eq!(data.len(), 11);
    assert_eq!(render(&data), Err(SynthError::MacroOutOfBounds));
}

#[test]
fn loop_of_zero_iterations_is_refused() {
    let data = stream([&[0xF0, 0x00, 0x17, 0xF1, 0xFF], EMPTY, EMPTY, EMPTY]);
    assert_eq!(render(&data), Err(SynthError::ZeroLoopCount));
}

#[test]
fn sixth_nested_loop_is_refused() {
    let body = [
        0xF0, 2, 0xF0, 2, 0xF0, 2, 0xF0, 2, 0xF0, 2, 0xF0, 2, 0x17, 0xF1, 0xF1, 0xF1, 0xF1, 0xF1,
        0xF1, 0xFF,
    ];
    let data = stream([&body, EMPTY, EMPTY, EMPTY]);
    let mut synth = MMMLSynthesizer::new();
    assert_eq!(synth.generate_mmml(&data), Err(SynthError::LoopStackOverflow));
    assert_eq!(synth.channels[0].loop_depth(), 5);
}

#[test]
fn five_nested_loops_play() {
    let body = [
        0xF0, 1, 0xF0, 1, 0xF0, 1, 0xF0, 1, 0xF0, 1, 0x17, 0xF1, 0xF1, 0xF1, 0xF1, 0xF1, 0xFF,
    ];
    let data = stream([&body, EMPTY, EMPTY, EMPTY]);
    // One note of no length: the tick that decodes it and the tick that
    // finds the end.
    assert_eq!(render(&data).map(|s| s.len()), Ok(8));
}

#[test]
fn loop_end_without_loop_is_refused() {
    let data = stream([&[0xF1, 0xFF], EMPTY, EMPTY, EMPTY]);
    assert_eq!(render(&data), Err(SynthError::LoopStackUnderflow));
}

#[test]
fn macro_that_calls_itself_is_runaway() {
    let data = stream_with_macros([&[0xF2, 0x00], EMPTY, EMPTY, EMPTY], &[&[0xF2, 0x00]]);
    assert_eq!(render(&data), Err(SynthError::Runaway));
}

#[test]
fn long_run_of_timeless_commands_is_runaway() {
    // 255 * 255 volume commands between two notes: more than one fetch
    // may execute.
    let body = [0xF0, 255, 0xF0, 255, 0xE1, 0xF1, 0xF1, 0x17, 0xFF];
    let data = stream([&body, EMPTY, EMPTY, EMPTY]);
    assert_eq!(render(&data), Err(SynthError::Runaway));
}

#[test]
fn short_run_of_timeless_commands_plays() {
    // 100 * 100 volume commands stay within the allowance of one fetch.
    let body = [0xF0, 100, 0xF0, 100, 0xE1, 0xF1, 0xF1, 0x17, 0xFF];
    let data = stream([&body, EMPTY, EMPTY, EMPTY]);
    assert_eq!(render(&data).map(|s| s.len()), Ok(8));
}

#[test]
fn octave_command_sets_the_phase_increment() {
    for p in 0u8..8 {
        let data = stream([&[0xD0 | p, 0x10, 0xFF], EMPTY, EMPTY, EMPTY]);
        let mut synth = MMMLSynthesizer::new();
        let samples = synth.generate_with_limit(&data, 8).unwrap();
        assert_eq!(samples.len(), 8);
        assert_eq!(synth.channels[0].octave(), 2u32 << p);
        assert_eq!(synth.channels[0].octave(), [2, 4, 8, 16, 32, 64, 128, 256][p as usize]);
        // One tick at the default increment, one at the new one.
        assert_eq!(synth.channels[0].phase(), 16 + (2u64 << p));
        // The other voices keep the default, the increment of octave 3.
        assert_eq!(synth.channels[1].octave(), 16);
        assert_eq!(synth.channels[1].octave(), 2 << 3);
    }
}

#[test]
fn octave_command_above_seven_shifts_on() {
    for p in 8u8..16 {
        let data = stream([&[0xD0 | p, 0x10, 0xFF], EMPTY, EMPTY, EMPTY]);
        let mut synth = MMMLSynthesizer::new();
        synth.generate_with_limit(&data, 8).unwrap();
        assert_eq!(synth.channels[0].octave(), 2u32 << p);
    }
    let data = stream([&[0xDF, 0x10, 0xFF], EMPTY, EMPTY, EMPTY]);
    let mut synth = MMMLSynthesizer::new();
    synth.generate_with_limit(&data, 8).unwrap();
    assert_eq!(synth.channels[0].octave(), 65536);
}

#[test]
fn volume_command_sets_the_duty_threshold() {
    let notes: [u16; 13] = [255, 1644, 1551, 1464, 1382, 1305, 1231, 1162, 1097, 1035, 977, 922, 871];
    for level in 0u8..16 {
        for pitch in 1u8..13 {
            let data = stream([&[0xE0 | level, pitch << 4, 0xFF], EMPTY, EMPTY, EMPTY]);
            let mut synth = MMMLSynthesizer::new();
            synth.generate_with_limit(&data, 8).unwrap();
            let f = notes[pitch as usize];
            assert_eq!(synth.channels[0].volume(), level);
            assert_eq!(synth.channels[0].frequency(), f);
            assert_eq!(synth.channels[0].duty_threshold(), f >> level);
        }
    }
}

#[test]
fn duty_threshold_values() {
    let data = stream([&[0xE3, 0x10, 0xFF], &[0xC0, 0xFF], &[0xEB, 0x10, 0xFF], EMPTY]);
    let mut synth = MMMLSynthesizer::new();
    synth.generate_with_limit(&data, 8).unwrap();
    assert_eq!(synth.channels[0].duty_threshold(), 205);
    // Default volume 1: half the period.
    assert_eq!(synth.channels[1].duty_threshold(), 435);
    assert_eq!(synth.channels[2].duty_threshold(), 0);
}

#[test]
fn zero_duty_threshold_is_silent() {
    for level in 11u8..16 {
        let data = stream([&[0xD7, 0xE0 | level, 0x10, 0xFF], EMPTY, EMPTY, EMPTY]);
        let samples = render(&data).unwrap();
        assert_eq!(samples.len(), 4 * 129);
        assert!(samples.iter().all(|&s| s == 0));
    }
    // The same note at volume 1 sounds.
    let data = stream([&[0xD7, 0xE1, 0x10, 0xFF], EMPTY, EMPTY, EMPTY]);
    let samples = render(&data).unwrap();
    assert!(voice_samples(&samples, 0).iter().any(|&s| s == 127));
}

#[test]
fn rest_is_silent() {
    let data = stream([&[0xD7, 0x17, 0x00, 0xFF], EMPTY, EMPTY, EMPTY]);
    let mut synth = MMMLSynthesizer::new();
    // Two ticks for the note, then the rest is decoded.
    synth.generate_with_limit(&data, 12).unwrap();
    assert_eq!(synth.channels[0].duty_threshold(), 0);
    assert_eq!(synth.channels[0].frequency(), 1644);
    assert_eq!(synth.channels[0].remaining_ticks(), 127);
    // One pass for the note, 128 for the rest, one that finds the end.
    let samples = render(&data).unwrap();
    assert_eq!(samples.len(), 4 * (1 + 128 + 1));
    let played = voice_samples(&samples, 0);
    assert_eq!(played[1], 127);
    assert!(played[2..].iter().all(|&s| s == 0));
}

#[test]
fn note_lengths() {
    let ticks: [usize; 16] = [127, 63, 31, 15, 7, 3, 1, 0, 95, 47, 23, 11, 5, 2, 1, 0];
    for param in 0u8..16 {
        // One tick before the note is decoded, one for the pass that
        // decodes it, one for each tick of its length; the pass after
        // that finds the end.
        let expected = 4 * (ticks[param as usize] + 2);
        let data = stream([&[0x10 | param, 0xFF], EMPTY, EMPTY, EMPTY]);
        assert_eq!(render(&data).map(|s| s.len()), Ok(expected));
        let data = stream([EMPTY, EMPTY, &[param, 0xFF], EMPTY]);
        assert_eq!(render(&data).map(|s| s.len()), Ok(expected));
        let data = stream([EMPTY, EMPTY, EMPTY, &[0x30 | param, 0xFF]]);
        assert_eq!(render(&data).map(|s| s.len()), Ok(expected));
    }
}

#[test]
fn remaining_ticks_count_down() {
    let data = stream([&[0x13, 0xFF], EMPTY, EMPTY, EMPTY]);
    let expected: [u8; 5] = [15, 14, 13, 12, 11];
    for (passes, &left) in expected.iter().enumerate() {
        let mut synth = MMMLSynthesizer::new();
        synth.generate_with_limit(&data, 4 * (passes + 2)).unwrap();
        assert_eq!(synth.channels[0].remaining_ticks(), left);
    }
}

#[test]
fn loop_runs_its_body_count_times() {
    for count in [1u8, 2, 3, 5, 100, 255] {
        let data = stream([&[0xF0, count, 0x17, 0xF1, 0xFF], EMPTY, EMPTY, EMPTY]);
        // Each note of no length takes one tick; the tick after the last
        // finds the end.
        assert_eq!(render(&data).map(|s| s.len()), Ok(4 * (count as usize + 1)));
    }
}

#[test]
fn nested_loops_multiply() {
    let body = [0xF0, 2, 0xF0, 3, 0x17, 0xF1, 0xF1, 0xFF];
    let data = stream([&body, EMPTY, EMPTY, EMPTY]);
    assert_eq!(render(&data).map(|s| s.len()), Ok(4 * (6 + 1)));
}

#[test]
fn loop_registers() {
    let data = stream([&[0xF0, 3, 0x17, 0xF1, 0x27, 0xFF], EMPTY, EMPTY, EMPTY]);
    let start = 8;
    // After the first pass: in the loop, behind the first note.
    let mut synth = MMMLSynthesizer::new();
    synth.generate_with_limit(&data, 8).unwrap();
    assert_eq!(synth.channels[0].loop_depth(), 1);
    assert_eq!(synth.channels[0].cursor(), start + 3);
    // After the third pass still in the loop, after the fourth out of it.
    let mut synth = MMMLSynthesizer::new();
    synth.generate_with_limit(&data, 16).unwrap();
    assert_eq!(synth.channels[0].loop_depth(), 1);
    assert_eq!(synth.channels[0].frequency(), 1644);
    let mut synth = MMMLSynthesizer::new();
    synth.generate_with_limit(&data, 20).unwrap();
    assert_eq!(synth.channels[0].loop_depth(), 0);
    assert_eq!(synth.channels[0].frequency(), 1551);
    assert_eq!(synth.channels[0].cursor(), start + 5);
}

#[test]
fn macro_returns_behind_the_call() {
    let data = stream_with_macros([&[0xF2, 0x00, 0x17, 0xFF], EMPTY, EMPTY, EMPTY], &[&[0x27, 0xFF]]);
    let start = 10;
    let body = start + 4 + 3;
    // First pass: the call, then the note of the macro.
    let mut synth = MMMLSynthesizer::new();
    synth.generate_with_limit(&data, 8).unwrap();
    assert_eq!(synth.channels[0].frequency(), 1551);
    assert_eq!(synth.channels[0].cursor(), body + 1);
    assert_eq!(synth.channels[0].return_cursor(), Some(start + 2));
    // Second pass: the return, then the note behind the call.
    let mut synth = MMMLSynthesizer::new();
    synth.generate_with_limit(&data, 12).unwrap();
    assert_eq!(synth.channels[0].frequency(), 1644);
    assert_eq!(synth.channels[0].cursor(), start + 3);
    assert_eq!(synth.channels[0].return_cursor(), None);
    // Third pass: the end of the voice.
    assert_eq!(render(&data).map(|s| s.len()), Ok(12));
}

#[test]
fn second_macro_call_overwrites_the_return_slot() {
    let data = stream_with_macros(
        [&[0xF2, 0x00, 0x17, 0xFF], EMPTY, EMPTY, EMPTY],
        &[&[0xF2, 0x01, 0x37, 0xFF], &[0x27, 0xFF]],
    );
    let start = 12;
    let first = start + 4 + 3;
    let second = first + 4;
    // First pass: both calls, then the note of the second macro. The slot
    // holds the return into the first macro.
    let mut synth = MMMLSynthesizer::new();
    synth.generate_with_limit(&data, 8).unwrap();
    assert_eq!(synth.channels[0].frequency(), 1551);
    assert_eq!(synth.channels[0].cursor(), second + 1);
    assert_eq!(synth.channels[0].return_cursor(), Some(first + 2));
    // Second pass: back in the first macro.
    let mut synth = MMMLSynthesizer::new();
    synth.generate_with_limit(&data, 12).unwrap();
    assert_eq!(synth.channels[0].frequency(), 1464);
    assert_eq!(synth.channels[0].cursor(), first + 3);
    assert_eq!(synth.channels[0].return_cursor(), None);
    // Third pass: the end of the first macro finds the slot empty and ends
    // the voice; the note behind the first call is never played.
    let mut synth = MMMLSynthesizer::new();
    let samples = synth.generate_mmml(&data).unwrap();
    assert_eq!(samples.len(), 12);
    assert_eq!(synth.channels[0].frequency(), 1551);
}

#[test]
fn one_note_round_trip() {
    // Voice 0 plays the highest note at the highest octave for 127 ticks;
    // the others rest as long and are muted.
    let data = stream([&[0xD7, 0xC0, 0xFF], &[0x00, 0xFF], &[0x00, 0xFF], &[0x00, 0xFF]]);
    let mut synth = MMMLSynthesizer::new();
    synth.channels[1].is_muted = true;
    synth.channels[2].is_muted = true;
    synth.channels[3].is_muted = true;
    let samples = synth.generate_mmml(&data).unwrap();
    assert_eq!(samples.len(), 4 * (127 + 2));
    let played = voice_samples(&samples, 0);
    assert_eq!(&played[..9], &[0, 127, 0, 0, 127, 127, 0, 127, 127]);
    // The phase grows by 256 and wraps at 871; the output is high below
    // 435. Before the note is decoded the voice is silent.
    let mut phase: u32 = 16;
    assert_eq!(played[0], 0);
    for &sample in &played[1..] {
        phase += 256;
        if phase >= 871 {
            phase -= 871;
        }
        assert_eq!(sample, if phase < 435 { 127 } else { 0 });
    }
    for v in 1..4 {
        assert!(voice_samples(&samples, v).iter().all(|&s| s == 0));
    }
}

#[test]
fn samples_are_silence_or_amplitude() {
    let data = stream([&[0xD7, 0xC0, 0xFF], &[0xD5, 0x30, 0xFF], &[0x00, 0xFF], &[0x30, 0xFF]]);
    let samples = render(&data).unwrap();
    assert!(samples.iter().all(|&s| s == 0 || s == 127));
    for v in [0, 1, 3] {
        assert!(voice_samples(&samples, v).iter().any(|&s| s == 127));
    }
}

#[test]
fn muted_voices_are_silent() {
    let data = stream([&[0xD7, 0xC0, 0xFF], &[0xD5, 0x30, 0xFF], &[0xD6, 0x50, 0xFF], &[0x30, 0xFF]]);
    let open = render(&data).unwrap();
    for v in 0..4 {
        let mut mutes = [false; 4];
        mutes[v] = true;
        let mut synth = MMMLSynthesizer::new();
        synth.set_mutes(mutes);
        assert!(synth.channels[v].muted());
        let samples = synth.generate_mmml(&data).unwrap();
        assert_eq!(samples.len(), open.len());
        for w in 0..4 {
            if w == v {
                assert!(voice_samples(&samples, w).iter().all(|&s| s == 0));
            } else {
                assert_eq!(voice_samples(&samples, w), voice_samples(&open, w));
            }
        }
        // Muting does not touch what the voice does.
        let mut unmuted = MMMLSynthesizer::new();
        unmuted.generate_mmml(&data).unwrap();
        assert_eq!(synth.channels[v].cursor(), unmuted.channels[v].cursor());
        assert_eq!(synth.channels[v].phase(), unmuted.channels[v].phase());
        assert_eq!(synth.channels[v].output_level(), unmuted.channels[v].output_level());
    }
}

#[test]
fn mute_flags_survive_a_rendering() {
    let data = stream([&[0x17, 0xFF], EMPTY, EMPTY, EMPTY]);
    let mut synth = MMMLSynthesizer::new();
    synth.channels[0].is_muted = true;
    synth.channels[0].set_muted(true);
    synth.channels[2].set_muted(true);
    synth.generate_mmml(&data).unwrap();
    assert!(synth.channels[0].muted());
    assert!(!synth.channels[1].muted());
    assert!(synth.channels[2].muted());
    assert!(!synth.channels[3].muted());
}

#[test]
fn rendering_is_reproducible() {
    let data = stream([&[0xD4, 0x35, 0x00, 0xFF], &[0xD5, 0x30, 0xFF], EMPTY, &[0x30, 0xFF]]);
    let first = render(&data).unwrap();
    assert_eq!(render(&data).unwrap(), first);
    // A synthesizer that has played starts over.
    let mut synth = MMMLSynthesizer::new();
    assert_eq!(synth.generate_mmml(&data).unwrap(), first);
    assert_eq!(synth.generate_mmml(&data).unwrap(), first);
}

#[test]
fn endless_stream_stops_at_the_limit() {
    // Voice 0 plays a note and then calls macro 0, which is the voice
    // itself: it never reaches an end.
    let data: Vec<u8> = vec![0, 10, 0, 13, 0, 13, 0, 13, 0, 10, 0x17, 0xF2, 0x00, 0xFF, 0x00];
    for limit in [0usize, 1, 2, 3, 4, 5, 10, 1000, 4096, 100_001] {
        let mut synth = MMMLSynthesizer::new();
        let samples = synth.generate_with_limit(&data, limit).unwrap();
        assert_eq!(samples.len(), limit);
    }
}

#[test]
fn limit_cuts_a_prefix() {
    let data = stream([&[0xD7, 0xC0, 0xFF], &[0xD5, 0x30, 0xFF], EMPTY, &[0x30, 0xFF]]);
    let whole = render(&data).unwrap();
    for limit in [0usize, 1, 7, 8, 9, 200, whole.len() - 1] {
        let samples = MMMLSynthesizer::new().generate_with_limit(&data, limit).unwrap();
        assert_eq!(samples, whole[..limit].to_vec());
    }
    for limit in [whole.len() + 1, whole.len() + 100, usize::MAX] {
        let samples = MMMLSynthesizer::new().generate_with_limit(&data, limit).unwrap();
        assert_eq!(samples, whole);
    }
}

#[test]
fn tempo_command_sets_the_tick_period() {
    // The period set in the first pass is taken up at the end of the
    // second: two notes a tick apart, then eight ticks of waiting.
    let data = stream([&[0xF3, 0x01, 0x17, 0x17, 0xFF], EMPTY, EMPTY, EMPTY]);
    let mut synth = MMMLSynthesizer::new();
    let samples = synth.generate_mmml(&data).unwrap();
    assert_eq!(synth.tick_period(), 8);
    assert_eq!(samples.len(), 4 * 11);
    let data = stream([&[0xF3, 0xFF, 0x17, 0x17, 0xFF], EMPTY, EMPTY, EMPTY]);
    let mut synth = MMMLSynthesizer::new();
    let samples = synth.generate_mmml(&data).unwrap();
    assert_eq!(synth.tick_period(), 2040);
    assert_eq!(samples.len(), 4 * (2 + 2040 + 1));
}

#[test]
fn tempo_is_shared_by_the_voices() {
    // Voice 3 is processed last: its period stands.
    let data = stream([&[0xF3, 0x02, 0x10, 0xFF], EMPTY, EMPTY, &[0xF3, 0x05, 0x10, 0xFF]]);
    let mut synth = MMMLSynthesizer::new();
    synth.generate_with_limit(&data, 8).unwrap();
    assert_eq!(synth.tick_period(), 40);
    assert_eq!(synth.tick_countdown(), 0);
    // The second pass takes the period up.
    let mut synth = MMMLSynthesizer::new();
    synth.generate_with_limit(&data, 12).unwrap();
    assert_eq!(synth.tick_countdown(), 40);
    let mut synth = MMMLSynthesizer::new();
    synth.generate_with_limit(&data, 16).unwrap();
    assert_eq!(synth.tick_countdown(), 39);
}

#[test]
fn unsupported_and_unknown_commands_are_skipped() {
    let body = [0xF4, 0x00, 0xF5, 0x00, 0xF6, 0xF7, 0x00, 0xFE, 0xF8, 0x17, 0xFF];
    let data = stream([&body, EMPTY, EMPTY, EMPTY]);
    let mut synth = MMMLSynthesizer::new();
    synth.generate_with_limit(&data, 8).unwrap();
    assert_eq!(synth.unsupported_commands(), 4);
    assert_eq!(synth.unknown_commands(), 1);
    assert_eq!(synth.channels[0].cursor(), 8 + 10);
    assert_eq!(synth.channels[0].frequency(), 1644);
    let mut synth = MMMLSynthesizer::new();
    let samples = synth.generate_mmml(&data).unwrap();
    assert_eq!(samples.len(), 8);
    assert_eq!(synth.unsupported_commands(), 8);
    assert_eq!(synth.unknown_commands(), 2);
}

#[test]
fn every_undefined_function_command_is_skipped() {
    for param in 8u8..14 {
        let data = stream([&[0xF0 | param, 0x17, 0xFF], EMPTY, EMPTY, EMPTY]);
        let mut synth = MMMLSynthesizer::new();
        synth.generate_with_limit(&data, 8).unwrap();
        assert_eq!(synth.unknown_commands(), 1);
        assert_eq!(synth.unsupported_commands(), 0);
        assert_eq!(synth.channels[0].cursor(), 8 + 2);
    }
}

#[test]
fn undefined_percussion_sample_is_skipped() {
    for pitch in 6u8..13 {
        let data = stream([EMPTY, EMPTY, EMPTY, &[pitch << 4, 0x17, 0xFF]]);
        let mut synth = MMMLSynthesizer::new();
        let samples = synth.generate_with_limit(&data, 8).unwrap();
        assert_eq!(synth.unknown_commands(), 1);
        assert_eq!(synth.channels[3].cursor(), 8 + 3 + 2);
        assert!(samples.iter().all(|&s| s == 0));
    }
}

#[test]
fn percussion_plays_the_sample_bits() {
    // Hi-hat for 127 ticks. The sampler reads a bit on the first tick and
    // on every fourth after it, and holds it in between; the note is armed
    // by the pass of the first tick.
    let hi_hat: [u8; 4] = [0b10011010, 0b01110100, 0b11010100, 0b00110011];
    let data = stream([EMPTY, EMPTY, EMPTY, &[0x50, 0xFF]]);
    let samples = render(&data).unwrap();
    assert_eq!(samples.len(), 4 * 129);
    let drum = voice_samples(&samples, 3);
    for (tick, &sample) in drum.iter().enumerate() {
        let expected = if tick < 4 {
            0
        } else {
            let read = tick / 4 - 1;
            127 * ((hi_hat[read / 8] >> (read % 8)) & 1)
        };
        assert_eq!(sample, expected, "tick {}", tick);
    }
    assert_eq!(&drum[..12], &[0, 0, 0, 0, 0, 0, 0, 0, 127, 127, 127, 127]);
}

#[test]
fn percussion_falls_silent_at_the_end_of_the_sample() {
    // The beep holds 15 bytes, of which the last is not played: 112 bits,
    // four ticks each. The rests let the sampler run on.
    let beep: [u8; 14] = [
        0b10101010, 0b00101010, 0b00110011, 0b00110011, 0b00110011, 0b00110011, 0b00110011,
        0b11001101, 0b11001100, 0b11001100, 0b11001100, 0b10101100, 0b10011001, 0b00110001,
    ];
    let data = stream([EMPTY, EMPTY, EMPTY, &[0x20, 0x00, 0x00, 0x00, 0x00, 0xFF]]);
    let samples = render(&data).unwrap();
    assert_eq!(samples.len(), 4 * (5 * 128 + 1));
    let drum = voice_samples(&samples, 3);
    for (tick, &sample) in drum.iter().enumerate() {
        let expected = if tick < 4 {
            0
        } else {
            let read = tick / 4 - 1;
            if read < 112 {
                127 * ((beep[read / 8] >> (read % 8)) & 1)
            } else {
                0
            }
        };
        assert_eq!(sample, expected, "tick {}", tick);
    }
}

#[test]
fn each_percussion_sample_starts_at_its_offset() {
    let first_bytes: [u8; 5] = [0b10101010, 0b10101010, 0b10010101, 0b10011010, 0b10011010];
    for pitch in 1u8..6 {
        let data = stream([EMPTY, EMPTY, EMPTY, &[(pitch << 4) | 2, 0xFF]]);
        let samples = render(&data).unwrap();
        assert_eq!(samples.len(), 4 * 33);
        let drum = voice_samples(&samples, 3);
        for read in 0..7 {
            let bit = (first_bytes[pitch as usize - 1] >> read) & 1;
            assert_eq!(drum[4 + 4 * read], 127 * bit);
        }
    }
}

#[test]
fn voice_without_notes_does_not_hold_the_song() {
    // Voice 0 plays two notes; the others hold nothing. The song ends when
    // voice 0 does.
    // Four passes for the note of three ticks, two for the note of one,
    // and the pass that finds the end.
    let data = stream([&[0x15, 0x16, 0xFF], EMPTY, EMPTY, EMPTY]);
    assert_eq!(render(&data).map(|s| s.len()), Ok(4 * (4 + 2 + 1)));
}

#[test]
fn song_ends_when_all_voices_wrap_in_one_pass() {
    // Voice 0 comes round every two passes, voice 1 every five: voice 0
    // meets its end in passes 3, 5, 7, 9 and 11, voice 1 in passes 6 and
    // 11.
    let data = stream([&[0x16, 0xFF], &[0x25, 0x17, 0xFF], EMPTY, EMPTY]);
    let samples = render(&data).unwrap();
    assert_eq!(samples.len(), 4 * 11);
}

#[test]
fn voice_accessor_gives_the_channel() {
    let data = stream([&[0xD2, 0x10, 0xFF], &[0xE5, 0x20, 0xFF], EMPTY, EMPTY]);
    let mut synth = MMMLSynthesizer::new();
    synth.generate_with_limit(&data, 8).unwrap();
    for v in 0..4 {
        assert_eq!(synth.voice(v).cursor(), synth.channels[v].cursor());
        assert_eq!(synth.voice(v).frequency(), synth.channels[v].frequency());
    }
    assert_eq!(synth.voice(0).octave(), 8);
    assert_eq!(synth.voice(1).volume(), 5);
    assert_eq!(synth.voice(1).duty_threshold(), 1551 >> 5);
}

#[test]
fn output_level_follows_the_phase() {
    // Octave 256 on the lowest note: period 1644, threshold 822.
    let data = stream([&[0xD7, 0x10, 0xFF], EMPTY, EMPTY, EMPTY]);
    let expected: [(u64, u8); 8] =
        [(16, 0), (272, 1), (528, 1), (784, 1), (1040, 0), (1296, 0), (1552, 0), (164, 1)];
    for (tick, &(phase, level)) in expected.iter().enumerate() {
        let mut synth = MMMLSynthesizer::new();
        let samples = synth.generate_with_limit(&data, 4 * (tick + 1)).unwrap();
        assert_eq!(synth.channels[0].phase(), phase);
        assert_eq!(synth.channels[0].output_level(), level);
        assert_eq!(samples[4 * tick], 127 * level);
    }
}

#[test]
fn phase_at_the_threshold_is_low() {
    // Period 871, volume 0: the threshold is the period, which the phase
    // never reaches. Volume 15: the threshold is 0, and a phase of 0 is
    // not below it.
    let data = stream([&[0xD7, 0xE0, 0xC0, 0xFF], &[0xD7, 0xEF, 0xC0, 0xFF], EMPTY, EMPTY]);
    let samples = render(&data).unwrap();
    assert!(voice_samples(&samples, 0)[1..].iter().all(|&s| s == 127));
    assert!(voice_samples(&samples, 1).iter().all(|&s| s == 0));
}

#[test]
fn default_increment_drives_a_voice_without_octave_command() {
    // The lowest note with no octave command before it: the phase grows
    // by 16 a tick, and the output is high below 822.
    let data = stream([&[0x10, 0xFF], EMPTY, EMPTY, EMPTY]);
    let samples = render(&data).unwrap();
    let played = voice_samples(&samples, 0);
    assert_eq!(played.len(), 129);
    for (tick, &sample) in played.iter().enumerate() {
        let phase = 16 * (tick as u32 + 1) % 1644;
        let expected = if tick > 0 && phase < 822 { 127 } else { 0 };
        assert_eq!(sample, expected, "tick {}", tick);
    }
    // 51 ticks below the threshold, then 51 above it from tick 52 on.
    assert_eq!(played[50], 127);
    assert_eq!(played[51], 0);
    let mut synth = MMMLSynthesizer::new();
    synth.generate_with_limit(&data, 4 * 10).unwrap();
    assert_eq!(synth.channels[0].phase(), 160);
    assert_eq!(synth.channels[1].phase(), 160);
}

#[test]
fn diagnostics_tell_what_was_skipped_and_where() {
    let body = [0xF4, 0x00, 0xF5, 0x00, 0xF6, 0xF7, 0x00, 0xFE, 0xF8, 0x17, 0xFF];
    let data = stream([&body, EMPTY, EMPTY, EMPTY]);
    let mut synth = MMMLSynthesizer::new();
    assert!(synth.diagnostics().is_empty());
    synth.generate_with_limit(&data, 8).unwrap();
    assert_eq!(
        synth.diagnostics(),
        &vec![
            Diagnostic::Unsupported { feature: Feature::Transpose, cursor: 8 },
            Diagnostic::Unsupported { feature: Feature::Instrument, cursor: 10 },
            Diagnostic::Unsupported { feature: Feature::Tie, cursor: 12 },
            Diagnostic::Unsupported { feature: Feature::Panning, cursor: 13 },
            Diagnostic::DebugMarker { cursor: 15 },
            Diagnostic::Unknown { byte: 0xF8, cursor: 16 },
        ]
    );
    // The second round adds the same six, and a new rendering starts over.
    synth.generate_mmml(&data).unwrap();
    assert_eq!(synth.diagnostics().len(), 12);
    assert_eq!(synth.diagnostics()[6..], synth.diagnostics()[..6]);
    synth.generate_with_limit(&data, 4).unwrap();
    assert!(synth.diagnostics().is_empty());
}

#[test]
fn debug_marker_leaves_its_place_and_nothing_else() {
    let data = stream([&[0x17, 0xFE, 0x17, 0xFF], EMPTY, EMPTY, &[0xFE, 0xFF]]);
    let mut synth = MMMLSynthesizer::new();
    let samples = synth.generate_with_limit(&data, 12).unwrap();
    // The markers are not heard: the stream without them sounds the same.
    let plain = stream([&[0x17, 0x17, 0xFF], EMPTY, EMPTY, EMPTY]);
    assert_eq!(samples, MMMLSynthesizer::new().generate_with_limit(&plain, 12).unwrap());
    assert_eq!(synth.unsupported_commands(), 0);
    assert_eq!(synth.unknown_commands(), 0);
    // In the first pass voice 3 meets its marker before it wraps and once
    // more after, and is left at its end. In the second pass voice 0 meets
    // its own marker, and voice 3 wraps and meets its marker once.
    assert_eq!(
        synth.diagnostics(),
        &vec![
            Diagnostic::DebugMarker { cursor: 14 },
            Diagnostic::DebugMarker { cursor: 14 },
            Diagnostic::DebugMarker { cursor: 9 },
            Diagnostic::DebugMarker { cursor: 14 },
        ]
    );
}

#[test]
fn undefined_percussion_sample_is_noted_with_its_byte() {
    let data = stream([EMPTY, EMPTY, EMPTY, &[0x93, 0x17, 0xFF]]);
    let mut synth = MMMLSynthesizer::new();
    synth.generate_with_limit(&data, 8).unwrap();
    assert_eq!(synth.diagnostics(), &vec![Diagnostic::Unknown { byte: 0x93, cursor: 11 }]);
}

#[test]
fn diagnostics_are_kept_up_to_their_limit() {
    // An unknown command before a note that calls itself as a macro: one
    // diagnostic a pass, without end.
    let data: Vec<u8> = vec![0, 10, 0, 14, 0, 14, 0, 14, 0, 10, 0xF9, 0x17, 0xF2, 0x00, 0xFF, 0x00];
    let mut synth = MMMLSynthesizer::new();
    synth.generate_with_limit(&data, 4 * 5000).unwrap();
    assert_eq!(synth.unknown_commands(), 4999);
    assert_eq!(synth.diagnostics().len(), 4096);
    assert!(synth.diagnostics().iter().all(|d| *d == Diagnostic::Unknown { byte: 0xF9, cursor: 10 }));
}

#[test]
fn single_voice_is_muted_by_index() {
    let data = stream([&[0xD7, 0xC0, 0xFF], &[0xD7, 0xC0, 0xFF], EMPTY, EMPTY]);
    let mut synth = MMMLSynthesizer::new();
    synth.set_muted(1, true);
    assert!(!synth.channels[0].is_muted);
    assert!(synth.channels[1].is_muted);
    let samples = synth.generate_mmml(&data).unwrap();
    assert!(voice_samples(&samples, 0).iter().any(|&s| s == 127));
    assert!(voice_samples(&samples, 1).iter().all(|&s| s == 0));
    synth.set_muted(1, false);
    assert!(!synth.channels[1].muted());
}
