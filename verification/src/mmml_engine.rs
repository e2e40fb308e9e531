//! The executable synthesizer: it sequences byte-code music data and
//! renders it as one-bit audio, stored one sample per byte.

use vstd::prelude::*;
use crate::error::{Diagnostic, SynthError};
use crate::format::{
    be16, decode, decode_command, read_be16, width_of, Command, AMPLITUDE, DC_OFFSET, DEFAULT_FREQUENCY,
    DEFAULT_OCTAVE, DEFAULT_VOLUME, HEADER_LEN, MAX_COMMANDS_PER_FETCH, MAX_DIAGNOSTICS,
    MAX_LOOPS, MAX_SAMPLES, NOTES, PERCUSSION, SAMPLES, SAMPLE_COUNT, SAMPLE_INDICES,
    SAMPLE_SPEED,
};
use crate::model::{
    apply, bump, effective_limit, fetch, none_muted, none_wrapped, pass, render, run,
    unknown_at, Fetched, Flow, LoopFrame, Machine, Passed, SamplerModel, Status, VoiceModel,
};

verus! {

/// Stores the state for a single voice channel. Its contracts speak of its
/// view; the mute flag is read and set for them by `muted` and `set_muted`.
#[derive(Clone, Copy)]
pub struct VoiceChannel {
    /// Last computed output, 0 or 1.
    output_level: u8,
    /// Phase increment per audio tick.
    octave: u32,
    /// Right shift that makes the duty threshold of the period.
    volume: u8,
    /// Ticks left of the note or rest being played.
    remaining_ticks: u8,
    /// Number of open loops: the used part of the two arrays below.
    loops_active: usize,
    /// Period of the oscillator.
    frequency: u16,
    /// Offset of the next command.
    cursor: usize,
    /// The output is high while the phase is below this.
    duty_threshold: u16,
    /// Phase accumulator.
    phase: u64,
    /// For each open loop, how many more times its end jumps back.
    loop_remaining: [u8; 5],
    /// For each open loop, the cursor of the first command of its body.
    loop_resume: [usize; 5],
    /// Where a channel end returns to, while a macro is played.
    return_cursor: Option<usize>,
    /// A muted voice contributes silence to the output.
    pub is_muted: bool,
}

impl View for VoiceChannel {
    type V = VoiceModel;

    closed spec fn view(&self) -> VoiceModel {
        VoiceModel {
            cursor: self.cursor as int,
            octave: self.octave as int,
            volume: self.volume,
            remaining_ticks: self.remaining_ticks as int,
            loops: Seq::new(
                self.loops_active as nat,
                |i: int|
                    LoopFrame {
                        resume: self.loop_resume@[i] as int,
                        remaining: self.loop_remaining@[i] as int,
                    },
            ),
            return_cursor: match self.return_cursor {
                Some(at) => Some(at as int),
                None => None,
            },
            frequency: self.frequency,
            duty_threshold: self.duty_threshold,
            phase: self.phase as int,
            output_level: self.output_level as int,
            muted: self.is_muted,
        }
    }
}

impl VoiceChannel {
    /// A voice before any command, not muted.
    pub fn new() -> (r: Self)
        ensures
            r@ == VoiceModel::fresh(false),
            r@.wf(),
    {
        reveal(VoiceModel::wf);
        let r = VoiceChannel {
            output_level: 0,
            octave: DEFAULT_OCTAVE,
            volume: DEFAULT_VOLUME,
            remaining_ticks: 0,
            loops_active: 0,
            frequency: DEFAULT_FREQUENCY,
            cursor: 0,
            duty_threshold: 0,
            phase: 0,
            loop_remaining: [0;5],
            loop_resume: [0;5],
            return_cursor: None,
            is_muted: false,
        };
        assert(r@ =~= VoiceModel::fresh(false));
        r
    }

    /// Puts the voice back to its state before any command, at `cursor`;
    /// the mute flag stays.
    fn reset(&mut self, cursor: usize)
        ensures
            final(self)@ == (VoiceModel {
                cursor: cursor as int,
                ..VoiceModel::fresh(old(self)@.muted)
            }),
            final(self)@.wf(),
    {
        reveal(VoiceModel::wf);
        self.output_level = 0;
        self.octave = DEFAULT_OCTAVE;
        self.volume = DEFAULT_VOLUME;
        self.remaining_ticks = 0;
        self.loops_active = 0;
        self.frequency = DEFAULT_FREQUENCY;
        self.cursor = cursor;
        self.duty_threshold = 0;
        self.phase = 0;
        self.return_cursor = None;
        assert(self@ =~= (VoiceModel {
            cursor: cursor as int,
            ..VoiceModel::fresh(old(self)@.muted)
        }));
    }

    /// Moves the cursor over `width` bytes.
    fn skip(&mut self, width: usize)
        requires
            old(self).cursor + width <= usize::MAX,
            old(self)@.wf(),
        ensures
            final(self)@ == old(self)@.skip(width as int),
            final(self)@.wf(),
    {
        reveal(VoiceModel::wf);
        self.cursor = self.cursor + width;
        assert(self@ =~= old(self)@.skip(width as int));
    }

    /// Begins a rest of `ticks` ticks.
    fn rest(&mut self, ticks: u8)
        requires
            old(self).cursor < usize::MAX,
            old(self)@.wf(),
        ensures
            final(self)@ == old(self)@.rest(ticks),
            final(self)@.wf(),
    {
        reveal(VoiceModel::wf);
        self.duty_threshold = 0;
        self.remaining_ticks = ticks;
        self.cursor = self.cursor + 1;
        assert(self@ =~= old(self)@.rest(ticks));
    }

    /// Begins note `pitch` as a pulse voice does.
    fn sound(&mut self, pitch: u8, ticks: u8)
        requires
            old(self).cursor < usize::MAX,
            pitch < 13,
            old(self)@.wf(),
        ensures
            final(self)@ == old(self)@.sound(pitch, ticks),
            final(self)@.wf(),
    {
        reveal(VoiceModel::wf);
        let period: u16 = NOTES[pitch as usize];
        self.frequency = period;
        self.duty_threshold = period >> (self.volume as u16);
        self.remaining_ticks = ticks;
        self.cursor = self.cursor + 1;
        assert(self@ =~= old(self)@.sound(pitch, ticks));
    }

    /// Begins a percussion note of `ticks` ticks.
    fn strike(&mut self, ticks: u8)
        requires
            old(self).cursor < usize::MAX,
            old(self)@.wf(),
        ensures
            final(self)@ == old(self)@.strike(ticks),
            final(self)@.wf(),
    {
        reveal(VoiceModel::wf);
        self.remaining_ticks = ticks;
        self.cursor = self.cursor + 1;
        assert(self@ =~= old(self)@.strike(ticks));
    }

    /// Executes an octave command.
    fn set_octave(&mut self, param: u8)
        requires
            old(self).cursor < usize::MAX,
            param < 16,
            old(self)@.wf(),
        ensures
            final(self)@ == old(self)@.set_octave(param),
            final(self)@.wf(),
    {
        reveal(VoiceModel::wf);
        assert(param < 16 ==> (2u32 << (param as u32)) <= 65536) by (bit_vector);
        self.octave = 2u32 << (param as u32);
        self.cursor = self.cursor + 1;
        assert(self@ =~= old(self)@.set_octave(param));
    }

    /// Executes a volume command.
    fn set_volume(&mut self, level: u8)
        requires
            old(self).cursor < usize::MAX,
            level < 16,
            old(self)@.wf(),
        ensures
            final(self)@ == old(self)@.set_volume(level),
            final(self)@.wf(),
    {
        reveal(VoiceModel::wf);
        self.volume = level;
        self.cursor = self.cursor + 1;
        assert(self@ =~= old(self)@.set_volume(level));
    }

    /// Opens a loop of `count` iterations.
    fn enter_loop(&mut self, count: u8)
        requires
            old(self).cursor + 2 <= usize::MAX,
            old(self)@.loops.len() < MAX_LOOPS,
            old(self)@.wf(),
            count >= 1,
        ensures
            final(self)@ == old(self)@.enter_loop(count),
            final(self)@.wf(),
    {
        reveal(VoiceModel::wf);
        let depth: usize = self.loops_active;
        self.loop_resume[depth] = self.cursor + 2;
        self.loop_remaining[depth] = count - 1;
        self.loops_active = depth + 1;
        self.cursor = self.cursor + 2;
        assert(self@.loops =~= old(self)@.enter_loop(count).loops);
        assert(self@ =~= old(self)@.enter_loop(count));
    }

    /// Executes a loop end.
    fn end_loop(&mut self)
        requires
            old(self).cursor < usize::MAX,
            old(self)@.loops.len() > 0,
            old(self)@.wf(),
        ensures
            final(self)@ == old(self)@.end_loop(),
            final(self)@.wf(),
    {
        reveal(VoiceModel::wf);
        let top: usize = self.loops_active - 1;
        if self.loop_remaining[top] > 0 {
            self.cursor = self.loop_resume[top];
            self.loop_remaining[top] = self.loop_remaining[top] - 1;
        } else {
            self.loops_active = top;
            self.cursor = self.cursor + 1;
        }
        assert(self@.loops =~= old(self)@.end_loop().loops);
        assert(self@ =~= old(self)@.end_loop());
    }

    /// Calls the macro at `target`.
    fn call(&mut self, target: usize)
        requires
            old(self).cursor + 2 <= usize::MAX,
            old(self)@.wf(),
        ensures
            final(self)@ == old(self)@.call(target as int),
            final(self)@.wf(),
    {
        reveal(VoiceModel::wf);
        self.return_cursor = Some(self.cursor + 2);
        self.cursor = target;
        assert(self@ =~= old(self)@.call(target as int));
    }

    /// Returns from a macro to `at`.
    fn resume(&mut self, at: usize)
        requires
            old(self)@.wf(),
        ensures
            final(self)@ == old(self)@.resume(at as int),
            final(self)@.wf(),
    {
        reveal(VoiceModel::wf);
        self.cursor = at;
        self.return_cursor = None;
        assert(self@ =~= old(self)@.resume(at as int));
    }

    /// Goes back to the start of the voice's data.
    fn restart(&mut self, start: usize)
        requires
            old(self)@.wf(),
        ensures
            final(self)@ == old(self)@.restart(start as int),
            final(self)@.wf(),
    {
        reveal(VoiceModel::wf);
        self.cursor = start;
        assert(self@ =~= old(self)@.restart(start as int));
    }

    /// Lets one tick of the current note or rest pass.
    fn wait(&mut self)
        requires
            old(self)@.remaining_ticks != 0,
            old(self)@.wf(),
        ensures
            final(self)@ == old(self)@.wait(),
            final(self)@.wf(),
    {
        reveal(VoiceModel::wf);
        self.remaining_ticks = self.remaining_ticks - 1;
        assert(self@ =~= old(self)@.wait());
    }

    /// One audio tick of a pulse voice.
    fn oscillate(&mut self)
        requires
            old(self)@.phase <= u64::MAX - 65536,
            old(self)@.wf(),
        ensures
            final(self)@ == old(self)@.oscillate(),
            final(self)@.wf(),
            final(self)@.phase <= old(self)@.phase + 65536,
    {
        reveal(VoiceModel::wf);
        let mut phase: u64 = self.phase + self.octave as u64;
        if phase >= self.frequency as u64 {
            phase = phase - self.frequency as u64;
        }
        self.phase = phase;
        self.output_level = if phase < self.duty_threshold as u64 {
            1
        } else {
            0
        };
        assert(self@ =~= old(self)@.oscillate());
    }

    /// Sets the output, as the sampler does for the percussion voice.
    fn set_level(&mut self, level: u8)
        requires
            level <= 1,
            old(self)@.wf(),
        ensures
            final(self)@ == (VoiceModel { output_level: level as int, ..old(self)@ }),
            final(self)@.wf(),
    {
        reveal(VoiceModel::wf);
        self.output_level = level;
        assert(self@ =~= (VoiceModel { output_level: level as int, ..old(self)@ }));
    }

    /// Offset of the next command of this voice.
    pub fn cursor(&self) -> (r: usize)
        ensures
            r == self@.cursor,
    {
        self.cursor
    }

    /// Amount by which the phase grows on every audio tick.
    pub fn octave(&self) -> (r: u32)
        ensures
            r == self@.octave,
    {
        self.octave
    }

    /// The volume: the right shift that makes the duty threshold.
    pub fn volume(&self) -> (r: u8)
        ensures
            r == self@.volume,
    {
        self.volume
    }

    /// Ticks left of the note or rest being played.
    pub fn remaining_ticks(&self) -> (r: u8)
        ensures
            r == self@.remaining_ticks,
    {
        self.remaining_ticks
    }

    /// Number of open loops.
    pub fn loop_depth(&self) -> (r: usize)
        ensures
            r == self@.loops.len(),
    {
        self.loops_active
    }

    /// Where the next channel end returns to, while a macro is played.
    pub fn return_cursor(&self) -> (r: Option<usize>)
        ensures
            match r {
                Some(at) => self@.return_cursor == Some(at as int),
                None => self@.return_cursor.is_none(),
            },
    {
        self.return_cursor
    }

    /// Period of the oscillator.
    pub fn frequency(&self) -> (r: u16)
        ensures
            r == self@.frequency,
    {
        self.frequency
    }

    /// The output is high while the phase is below this value.
    pub fn duty_threshold(&self) -> (r: u16)
        ensures
            r == self@.duty_threshold,
    {
        self.duty_threshold
    }

    /// The phase accumulator.
    pub fn phase(&self) -> (r: u64)
        ensures
            r == self@.phase,
    {
        self.phase
    }

    /// Last computed output, 0 or 1.
    pub fn output_level(&self) -> (r: u8)
        ensures
            r == self@.output_level,
    {
        self.output_level
    }

    /// Whether the voice is muted.
    pub fn muted(&self) -> (r: bool)
        ensures
            r == self@.muted,
    {
        self.is_muted
    }

    /// Mutes the voice, or lets it sound again.
    pub fn set_muted(&mut self, muted: bool)
        ensures
            final(self)@ == (VoiceModel { muted, ..old(self)@ }),
            old(self)@.wf() ==> final(self)@.wf(),
    {
        reveal(VoiceModel::wf);
        self.is_muted = muted;
        assert(self@ =~= (VoiceModel { muted, ..old(self)@ }));
    }

    /// The sample the voice contributes to the output.
    fn sample(&self) -> (r: u8)
        requires
            self@.wf(),
        ensures
            r == self@.sample(),
    {
        reveal(VoiceModel::wf);
        if self.is_muted {
            DC_OFFSET
        } else {
            self.output_level * AMPLITUDE + DC_OFFSET
        }
    }
}

/// Sampler state for the percussion samples.
#[derive(Clone, Copy)]
pub struct Sampler {
    /// Byte of the percussion table being read.
    byte_index: u8,
    /// Bit of that byte to read next.
    bit_index: u8,
    /// Bytes from this index on are not read.
    end_index: u8,
    /// Audio ticks until the next bit is read.
    countdown: u8,
}

impl View for Sampler {
    type V = SamplerModel;

    closed spec fn view(&self) -> SamplerModel {
        SamplerModel {
            byte_index: self.byte_index as int,
            bit_index: self.bit_index as int,
            end_index: self.end_index as int,
            countdown: self.countdown as int,
        }
    }
}

impl Sampler {
    /// A sampler that plays nothing.
    pub fn new() -> (r: Self)
        ensures
            r@ == SamplerModel::fresh(),
    {
        Sampler { byte_index: 0, bit_index: 0, end_index: 0, countdown: 0 }
    }

    /// Sets the sampler to the start of percussion sample `pitch`.
    fn arm(&mut self, pitch: u8)
        requires
            1 <= pitch <= SAMPLE_COUNT,
            old(self)@.wf(),
        ensures
            final(self)@ == old(self)@.arm(pitch),
            final(self)@.wf(),
    {
        self.bit_index = 0;
        self.byte_index = SAMPLE_INDICES[(pitch - 1) as usize];
        self.end_index = SAMPLE_INDICES[pitch as usize] - 1;
    }

    /// The output of the percussion voice after this tick, given its
    /// output `held` from before.
    fn level(&self, held: u8) -> (r: u8)
        requires
            self@.wf(),
            held <= 1,
        ensures
            r == self@.level(held as int),
            r <= 1,
    {
        if self.countdown != 0 {
            held
        } else if self.byte_index < self.end_index {
            let byte: u8 = SAMPLES[self.byte_index as usize];
            let shift: u8 = self.bit_index;
            assert(((byte >> shift) & 1u8) <= 1) by (bit_vector);
            (byte >> shift) & 1
        } else {
            0
        }
    }

    /// One audio tick of the sampler.
    fn step(&mut self)
        requires
            old(self)@.wf(),
        ensures
            final(self)@ == old(self)@.step(),
            final(self)@.wf(),
    {
        if self.countdown != 0 {
            self.countdown = self.countdown - 1;
        } else {
            if self.byte_index < self.end_index {
                if self.bit_index >= 7 {
                    self.byte_index = self.byte_index + 1;
                    self.bit_index = 0;
                } else {
                    self.bit_index = self.bit_index + 1;
                }
            }
            self.countdown = SAMPLE_SPEED;
        }
    }
}

/// Main synthesizer state. Its contracts speak of its view; the voices are
/// read for them by `voice`, and muted by `set_muted` and `set_mutes`.
pub struct MMMLSynthesizer {
    /// The voices: three pulse waves, then the percussion voice.
    pub channels: [VoiceChannel; 4],
    /// The sampler behind the percussion voice.
    sampler: Sampler,
    /// Audio ticks until the next processing pass.
    tick_countdown: u16,
    /// Value the countdown is reset to at each pass.
    tick_period: u16,
    /// Offset at which the command data begins.
    header_size: usize,
    /// Commands skipped as unsupported, up to the largest `u32`.
    unsupported: u32,
    /// Commands skipped as unknown, up to the largest `u32`.
    unknown: u32,
    /// What was passed over, as far as it is kept.
    diagnostics: Vec<Diagnostic>,
}

impl View for MMMLSynthesizer {
    type V = Machine;

    closed spec fn view(&self) -> Machine {
        Machine {
            voices: Seq::new(4, |v: int| self.channels@[v]@),
            sampler: self.sampler@,
            tick_countdown: self.tick_countdown as int,
            tick_period: self.tick_period as int,
            header_size: self.header_size as int,
            unsupported: self.unsupported as int,
            unknown: self.unknown as int,
            diagnostics: self.diagnostics@,
        }
    }
}

impl MMMLSynthesizer {
    /// A synthesizer with no stream loaded and no voice muted.
    pub fn new() -> (r: Self)
        ensures
            r@ == Machine::fresh(none_muted()),
            r@.wf(),
    {
        let r = MMMLSynthesizer {
            channels: [
                VoiceChannel::new(),
                VoiceChannel::new(),
                VoiceChannel::new(),
                VoiceChannel::new(),
            ],
            sampler: Sampler::new(),
            tick_countdown: 0,
            tick_period: 0,
            header_size: 0,
            unsupported: 0,
            unknown: 0,
            diagnostics: Vec::new(),
        };
        assert(r@ =~= Machine::fresh(none_muted()));
        r
    }

    /// Puts the synthesizer at the start of `data`: every register but the
    /// mute flags goes back to its first value, and each voice's cursor is
    /// read from the voice table. A buffer too short to hold the table is
    /// refused.
    pub fn initialize(&mut self, data: &[u8]) -> (r: Result<(), SynthError>)
        ensures
            match r {
                Ok(_) => data@.len() >= HEADER_LEN && final(self)@ == Machine::start(
                    data@,
                    old(self)@.mutes(),
                ),
                Err(e) => e == SynthError::HeaderTooShort && data@.len() < HEADER_LEN && final(self)@
                    == Machine::fresh(old(self)@.mutes()),
            },
            final(self)@.wf(),
    {
        if data.len() < HEADER_LEN {
            let mut v: usize = 0;
            while v < 4
                invariant
                    v <= 4,
                    forall|i: int|
                        0 <= i < v ==> self.channels@[i]@ == VoiceModel::fresh(
                            old(self).channels@[i]@.muted,
                        ) && self.channels@[i]@.wf(),
                    forall|i: int| v <= i < 4 ==> self.channels@[i] == old(self).channels@[i],
                decreases 4 - v,
            {
                self.channels[v].reset(0);
                v = v + 1;
            }
            self.clear_clocks(0);
            assert(self@ =~= Machine::fresh(old(self)@.mutes()));
            return Err(SynthError::HeaderTooShort);
        }
        let mut v: usize = 0;
        while v < 4
            invariant
                v <= 4,
                data@.len() >= HEADER_LEN,
                forall|i: int|
                    0 <= i < v ==> self.channels@[i]@ == (VoiceModel {
                        cursor: be16(data@, 2 * i),
                        ..VoiceModel::fresh(old(self).channels@[i]@.muted)
                    }) && self.channels@[i]@.wf(),
                forall|i: int| v <= i < 4 ==> self.channels@[i] == old(self).channels@[i],
            decreases 4 - v,
        {
            let start: usize = read_be16(data, 2 * v);
            self.channels[v].reset(start);
            v = v + 1;
        }
        let header_size: usize = read_be16(data, 0);
        self.clear_clocks(header_size);
        assert(self@ =~= Machine::start(data@, old(self)@.mutes()));
        Ok(())
    }

    /// Keeps `diagnostic`, if there is room for it.
    fn note(&mut self, diagnostic: Diagnostic)
        ensures
            final(self)@ == old(self)@.noted(diagnostic),
            final(self).channels == old(self).channels,
    {
        if self.diagnostics.len() < MAX_DIAGNOSTICS {
            self.diagnostics.push(diagnostic);
        }
        assert(self@ =~= old(self)@.noted(diagnostic));
    }

    /// Keeps a diagnostic for the unknown byte at the cursor of voice `v`.
    fn note_unknown(&mut self, v: usize, data: &[u8])
        requires
            v < 4,
            old(self)@.voices[v as int].cursor < data@.len(),
        ensures
            final(self)@ == old(self)@.noted(unknown_at(old(self)@, v as int, data@)),
            final(self).channels == old(self).channels,
    {
        assert(self@.voices[v as int] == self.channels@[v as int]@);
        let cursor: usize = self.channels[v].cursor;
        let byte: u8 = data[cursor];
        self.note(Diagnostic::Unknown { byte, cursor });
    }

    /// Voice `v` executes `cmd`, the command at its cursor.
    fn apply(&mut self, v: usize, cmd: Command, data: &[u8], wrapped: bool) -> (r: Result<
        Flow,
        SynthError,
    >)
        requires
            v < 4,
            data.len() >= HEADER_LEN,
            old(self)@.wf(),
            decode(data@, old(self)@.voices[v as int].cursor) == Ok::<Command, SynthError>(cmd),
        ensures
            match r {
                Ok(flow) => apply(old(self)@, v as int, cmd, data@, wrapped) == Ok::<
                    (Machine, Flow),
                    SynthError,
                >((final(self)@, flow)),
                Err(e) => apply(old(self)@, v as int, cmd, data@, wrapped) == Err::<
                    (Machine, Flow),
                    SynthError,
                >(e) && final(self)@ == old(self)@,
            },
            final(self)@.wf(),
            final(self)@.same_phases(old(self)@),
    {
        let ghost before = self@;
        assert(before.voices[v as int] == self.channels@[v as int]@);
        assert(self.channels@[v as int].cursor < data@.len());
        match cmd {
            Command::Rest { ticks } => {
                self.channels[v].rest(ticks);
                assert(self@ =~= before.with_voice(v as int, before.voices[v as int].rest(ticks)));
                Ok(Flow::Held)
            },
            Command::Note { pitch, ticks } => {
                if v != PERCUSSION {
                    self.channels[v].sound(pitch, ticks);
                    assert(self@ =~= before.with_voice(
                        v as int,
                        before.voices[v as int].sound(pitch, ticks),
                    ));
                    Ok(Flow::Held)
                } else if pitch <= SAMPLE_COUNT {
                    self.sampler.arm(pitch);
                    self.channels[v].strike(ticks);
                    assert(self@ =~= (Machine {
                        sampler: before.sampler.arm(pitch),
                        ..before
                    }).with_voice(v as int, before.voices[v as int].strike(ticks)));
                    Ok(Flow::Held)
                } else {
                    self.unknown = self.unknown.saturating_add(1);
                    self.note_unknown(v, data);
                    self.channels[v].skip(1);
                    assert(self@ =~= (Machine { unknown: bump(before.unknown), ..before }).noted(
                        unknown_at(before, v as int, data@),
                    ).with_voice(v as int, before.voices[v as int].skip(1)));
                    Ok(Flow::Next)
                }
            },
            Command::SetOctave { param } => {
                self.channels[v].set_octave(param);
                assert(self@ =~= before.with_voice(
                    v as int,
                    before.voices[v as int].set_octave(param),
                ));
                Ok(Flow::Next)
            },
            Command::SetVolume { level } => {
                self.channels[v].set_volume(level);
                assert(self@ =~= before.with_voice(
                    v as int,
                    before.voices[v as int].set_volume(level),
                ));
                Ok(Flow::Next)
            },
            Command::LoopStart { count } => {
                if count == 0 {
                    Err(SynthError::ZeroLoopCount)
                } else if self.channels[v].loops_active >= MAX_LOOPS {
                    Err(SynthError::LoopStackOverflow)
                } else {
                    self.channels[v].enter_loop(count);
                    assert(self@ =~= before.with_voice(
                        v as int,
                        before.voices[v as int].enter_loop(count),
                    ));
                    Ok(Flow::Next)
                }
            },
            Command::LoopEnd => {
                if self.channels[v].loops_active == 0 {
                    Err(SynthError::LoopStackUnderflow)
                } else {
                    self.channels[v].end_loop();
                    assert(self@ =~= before.with_voice(
                        v as int,
                        before.voices[v as int].end_loop(),
                    ));
                    Ok(Flow::Next)
                }
            },
            Command::MacroCall { id } => {
                let entry: usize = (id as usize + 4) * 2;
                if entry + 1 >= data.len() {
                    Err(SynthError::MacroOutOfBounds)
                } else {
                    let target: usize = read_be16(data, entry);
                    self.channels[v].call(target);
                    assert(self@ =~= before.with_voice(
                        v as int,
                        before.voices[v as int].call(target as int),
                    ));
                    Ok(Flow::Next)
                }
            },
            Command::SetTempo { arg } => {
                self.tick_period = (arg as u16) << 3;
                self.channels[v].skip(2);
                assert(self@ =~= (Machine {
                    tick_period: ((arg as u16) << 3) as int,
                    ..before
                }).with_voice(v as int, before.voices[v as int].skip(2)));
                Ok(Flow::Next)
            },
            Command::Unsupported { feature } => {
                self.unsupported = self.unsupported.saturating_add(1);
                let cursor: usize = self.channels[v].cursor;
                self.note(Diagnostic::Unsupported { feature, cursor });
                self.channels[v].skip(feature.width());
                assert(self@ =~= (Machine {
                    unsupported: bump(before.unsupported),
                    ..before
                }).noted(Diagnostic::Unsupported { feature, cursor }).with_voice(
                    v as int,
                    before.voices[v as int].skip(width_of(feature)),
                ));
                Ok(Flow::Next)
            },
            Command::DebugMarker => {
                let cursor: usize = self.channels[v].cursor;
                self.note(Diagnostic::DebugMarker { cursor });
                self.channels[v].skip(1);
                assert(self@ =~= before.noted(Diagnostic::DebugMarker { cursor }).with_voice(
                    v as int,
                    before.voices[v as int].skip(1),
                ));
                Ok(Flow::Next)
            },
            Command::Unknown => {
                self.unknown = self.unknown.saturating_add(1);
                self.note_unknown(v, data);
                self.channels[v].skip(1);
                assert(self@ =~= (Machine { unknown: bump(before.unknown), ..before }).noted(
                    unknown_at(before, v as int, data@),
                ).with_voice(v as int, before.voices[v as int].skip(1)));
                Ok(Flow::Next)
            },
            Command::ChannelEnd => {
                match self.channels[v].return_cursor {
                    Some(at) => {
                        self.channels[v].resume(at);
                        assert(self@ =~= before.with_voice(
                            v as int,
                            before.voices[v as int].resume(at as int),
                        ));
                        Ok(Flow::Next)
                    },
                    None => {
                        if wrapped {
                            Ok(Flow::Parked)
                        } else {
                            let start: usize = read_be16(data, 2 * v);
                            self.channels[v].restart(start);
                            assert(self@ =~= before.with_voice(
                                v as int,
                                before.voices[v as int].restart(start as int),
                            ));
                            Ok(Flow::Wrapped)
                        }
                    },
                }
            },
        }
    }

    /// Voice `v` fetches: it executes commands until a note or rest
    /// begins or the voice is parked. `Ok(true)` says that with this voice
    /// every voice has wrapped in the pass.
    fn fetch(&mut self, v: usize, data: &[u8], wrapped: &mut [bool; 4]) -> (r: Result<
        bool,
        SynthError,
    >)
        requires
            v < 4,
            data.len() >= HEADER_LEN,
            old(self)@.wf(),
        ensures
            fetch(old(self)@, v as int, data@, old(wrapped)@, MAX_COMMANDS_PER_FETCH as nat)
                == match r {
                Ok(finished) => if finished {
                    Fetched::Finished(final(self)@)
                } else {
                    Fetched::Settled(final(self)@, final(wrapped)@)
                },
                Err(e) => Fetched::Failed(final(self)@, e),
            },
            final(self)@.wf(),
            final(self)@.same_phases(old(self)@),
    {
        let mut budget: u32 = MAX_COMMANDS_PER_FETCH;
        loop
            invariant
                v < 4,
                data.len() >= HEADER_LEN,
                self@.wf(),
                fetch(old(self)@, v as int, data@, old(wrapped)@, MAX_COMMANDS_PER_FETCH as nat)
                    == fetch(self@, v as int, data@, wrapped@, budget as nat),
                self@.same_phases(old(self)@),
            decreases budget,
        {
            if budget == 0 {
                return Err(SynthError::Runaway);
            }
            budget = budget - 1;
            assert(self@.voices[v as int] == self.channels@[v as int]@);
            let cmd = match decode_command(data, self.channels[v].cursor) {
                Ok(cmd) => cmd,
                Err(e) => {
                    return Err(e);
                },
            };
            match self.apply(v, cmd, data, wrapped[v]) {
                Err(e) => {
                    return Err(e);
                },
                Ok(Flow::Next) => {},
                Ok(Flow::Held) => {
                    return Ok(false);
                },
                Ok(Flow::Parked) => {
                    return Ok(false);
                },
                Ok(Flow::Wrapped) => {
                    wrapped[v] = true;
                    if wrapped[0] && wrapped[1] && wrapped[2] && wrapped[3] {
                        return Ok(true);
                    }
                },
            }
        }
    }

    /// One processing pass over the four voices. `Ok(true)` says that
    /// every voice wrapped in it.
    fn pass(&mut self, data: &[u8]) -> (r: Result<bool, SynthError>)
        requires
            data.len() >= HEADER_LEN,
            old(self)@.wf(),
        ensures
            pass(old(self)@, data@, 0, none_wrapped()) == match r {
                Ok(finished) => if finished {
                    Passed::Finished(final(self)@)
                } else {
                    Passed::Continue(final(self)@)
                },
                Err(e) => Passed::Failed(final(self)@, e),
            },
            final(self)@.wf(),
            final(self)@.same_phases(old(self)@),
    {
        let mut wrapped: [bool; 4] = [false, false, false, false];
        assert(wrapped@ =~= none_wrapped());
        let mut v: usize = 0;
        while v < 4
            invariant
                v <= 4,
                data.len() >= HEADER_LEN,
                self@.wf(),
                pass(old(self)@, data@, 0, none_wrapped()) == pass(self@, data@, v as int, wrapped@),
                self@.same_phases(old(self)@),
            decreases 4 - v,
        {
            let ghost before = self@;
            assert(before.voices[v as int] == self.channels@[v as int]@);
            if self.channels[v].remaining_ticks != 0 {
                self.channels[v].wait();
                assert(self@ =~= before.with_voice(v as int, before.voices[v as int].wait()));
            } else {
                match self.fetch(v, data, &mut wrapped) {
                    Err(e) => {
                        return Err(e);
                    },
                    Ok(finished) => {
                        if finished {
                            return Ok(true);
                        }
                    },
                }
            }
            v = v + 1;
        }
        Ok(false)
    }

    /// One audio tick: the sampler and the three oscillators advance.
    fn audio_tick(&mut self)
        requires
            old(self)@.wf(),
            old(self)@.phases_within(u64::MAX - 65536),
        ensures
            final(self)@ == old(self)@.audio_tick(),
            final(self)@.wf(),
            final(self)@.phases_advanced(old(self)@, 65536),
    {
        let ghost before = self@;
        assert(before.voices[0] == self.channels@[0]@);
        assert(before.voices[1] == self.channels@[1]@);
        assert(before.voices[2] == self.channels@[2]@);
        assert(before.voices[3] == self.channels@[3]@);
        assert(self.channels@[3].output_level <= 1) by {
            reveal(VoiceModel::wf);
        }
        let level: u8 = self.sampler.level(self.channels[3].output_level);
        self.sampler.step();
        self.channels[0].oscillate();
        self.channels[1].oscillate();
        self.channels[2].oscillate();
        self.channels[3].set_level(level);
        assert(self@ =~= before.audio_tick());
    }

    /// Appends the samples of the first `count` voices to `out`.
    fn emit(&self, out: &mut Vec<u8>, count: usize)
        requires
            count <= 4,
            self@.wf(),
        ensures
            final(out)@ == old(out)@ + self@.frame().take(count as int),
    {
        let mut v: usize = 0;
        while v < count
            invariant
                v <= count <= 4,
                self@.wf(),
                out@ == old(out)@ + self@.frame().take(v as int),
            decreases count - v,
        {
            assert(self@.voices[v as int] == self.channels@[v as int]@);
            out.push(self.channels[v].sample());
            assert(self@.frame().take(v + 1) =~= self@.frame().take(v as int).push(
                self@.frame()[v as int],
            ));
            v = v + 1;
        }
    }

    /// Renders `data` from its start, as `generate_mmml` does, but stops once
    /// the output holds `limit` samples where that is less than
    /// `MAX_SAMPLES`.
    pub fn generate_with_limit(&mut self, data: &[u8], limit: usize) -> (r: Result<
        Vec<u8>,
        SynthError,
    >)
        ensures
            final(self)@ == render(data@, old(self)@.mutes(), limit as nat).machine,
            final(self)@.wf(),
            match r {
                Ok(samples) => {
                    &&& samples@ == render(data@, old(self)@.mutes(), limit as nat).output
                    &&& samples@.len() <= effective_limit(limit as nat)
                    &&& if samples@.len() == effective_limit(limit as nat) {
                        render(data@, old(self)@.mutes(), limit as nat).status == Status::Truncated
                    } else {
                        render(data@, old(self)@.mutes(), limit as nat).status == Status::Finished
                    }
                },
                Err(e) => render(data@, old(self)@.mutes(), limit as nat).status == Status::Failed(
                    e,
                ),
            },
    {
        let cap: usize = if limit < MAX_SAMPLES {
            limit
        } else {
            MAX_SAMPLES
        };
        match self.initialize(data) {
            Err(e) => {
                return Err(e);
            },
            Ok(_) => {},
        }
        let mut out: Vec<u8> = Vec::new();
        let ghost goal = render(data@, old(self)@.mutes(), limit as nat);
        let ghost mut ticks: int = 0;
        assert(out@ =~= Seq::<u8>::empty());
        loop
            invariant
                data.len() >= HEADER_LEN,
                cap <= MAX_SAMPLES,
                cap == effective_limit(limit as nat),
                self@.wf(),
                0 <= ticks,
                out@.len() == 4 * ticks,
                out@.len() <= cap,
                self@.phases_within(65536 * ticks),
                goal == render(data@, old(self)@.mutes(), limit as nat),
                run(self@, data@, cap as nat, out@) == goal,
            decreases cap - out@.len(),
        {
            if out.len() >= cap {
                return Ok(out);
            }
            let room: usize = cap - out.len();
            let ghost before = self@;
            let ghost produced = out@;
            self.audio_tick();
            if room <= 4 {
                self.emit(&mut out, room);
                return Ok(out);
            }
            self.emit(&mut out, 4);
            assert(self@.frame().take(4) =~= self@.frame());
            if self.tick_countdown != 0 {
                self.tick_countdown = self.tick_countdown - 1;
                assert(self@ =~= (Machine {
                    tick_countdown: before.audio_tick().tick_countdown - 1,
                    ..before.audio_tick()
                }));
            } else {
                self.tick_countdown = self.tick_period;
                assert(self@ =~= (Machine {
                    tick_countdown: before.audio_tick().tick_period,
                    ..before.audio_tick()
                }));
                match self.pass(data) {
                    Err(e) => {
                        return Err(e);
                    },
                    Ok(finished) => {
                        if finished {
                            return Ok(out);
                        }
                    },
                }
            }
            proof {
                ticks = ticks + 1;
            }
        }
    }

    /// Generates audio samples from MMML data: one byte per voice and
    /// audio tick, voice 0 first, until every voice has wrapped in one
    /// processing pass or the output holds `MAX_SAMPLES` samples.
    pub fn generate_mmml(&mut self, data: &[u8]) -> (r: Result<Vec<u8>, SynthError>)
        ensures
            final(self)@ == render(data@, old(self)@.mutes(), MAX_SAMPLES as nat).machine,
            final(self)@.wf(),
            match r {
                Ok(samples) => {
                    &&& samples@ == render(data@, old(self)@.mutes(), MAX_SAMPLES as nat).output
                    &&& samples@.len() <= MAX_SAMPLES
                    &&& if samples@.len() == MAX_SAMPLES {
                        render(data@, old(self)@.mutes(), MAX_SAMPLES as nat).status
                            == Status::Truncated
                    } else {
                        render(data@, old(self)@.mutes(), MAX_SAMPLES as nat).status
                            == Status::Finished
                    }
                },
                Err(e) => render(data@, old(self)@.mutes(), MAX_SAMPLES as nat).status
                    == Status::Failed(e),
            },
    {
        self.generate_with_limit(data, MAX_SAMPLES)
    }

    /// Voice `v`.
    pub fn voice(&self, v: usize) -> (r: &VoiceChannel)
        requires
            v < 4,
        ensures
            r@ == self@.voices[v as int],
    {
        &self.channels[v]
    }

    /// Mutes the voices whose flag in `mutes` is set, and lets the others
    /// sound; nothing else changes.
    pub fn set_mutes(&mut self, mutes: [bool; 4])
        ensures
            final(self)@.mutes() == mutes@,
            final(self)@ == (Machine {
                voices: Seq::new(
                    4,
                    |v: int| VoiceModel { muted: mutes@[v], ..old(self)@.voices[v] },
                ),
                ..old(self)@
            }),
            old(self)@.wf() ==> final(self)@.wf(),
    {
        let mut v: usize = 0;
        while v < 4
            invariant
                v <= 4,
                forall|i: int|
                    0 <= i < v && old(self).channels@[i]@.wf() ==> self.channels@[i]@.wf(),
                self.sampler == old(self).sampler,
                self.tick_countdown == old(self).tick_countdown,
                self.tick_period == old(self).tick_period,
                self.header_size == old(self).header_size,
                self.unsupported == old(self).unsupported,
                self.unknown == old(self).unknown,
                self.diagnostics == old(self).diagnostics,
                forall|i: int|
                    0 <= i < v ==> self.channels@[i]@ == (VoiceModel {
                        muted: mutes@[i],
                        ..old(self).channels@[i]@
                    }),
                forall|i: int| v <= i < 4 ==> self.channels@[i] == old(self).channels@[i],
            decreases 4 - v,
        {
            self.channels[v].set_muted(mutes[v]);
            v = v + 1;
        }
        assert(self@ =~= (Machine {
            voices: Seq::new(4, |v: int| VoiceModel { muted: mutes@[v], ..old(self)@.voices[v] }),
            ..old(self)@
        }));
        assert(self@.mutes() =~= mutes@);
    }

    /// Audio ticks between two processing passes, less one.
    pub fn tick_period(&self) -> (r: u16)
        ensures
            r == self@.tick_period,
    {
        self.tick_period
    }

    /// Audio ticks until the next processing pass.
    pub fn tick_countdown(&self) -> (r: u16)
        ensures
            r == self@.tick_countdown,
    {
        self.tick_countdown
    }

    /// Offset at which the command data begins: the start of voice 0.
    pub fn header_size(&self) -> (r: usize)
        ensures
            r == self@.header_size,
    {
        self.header_size
    }

    /// Commands skipped since the start of the rendering because playback
    /// does not support them: transpose, instrument, tie and panning. The
    /// count stops at the largest `u32`.
    pub fn unsupported_commands(&self) -> (r: u32)
        ensures
            r == self@.unsupported,
    {
        self.unsupported
    }

    /// What the rendering passed over, in the order in which it was met:
    /// unsupported commands, unknown bytes and debug markers, each with its
    /// place in the stream. No more than `MAX_DIAGNOSTICS` are kept; the two
    /// counts tell how many of the first two kinds there were in all.
    pub fn diagnostics(&self) -> (r: &Vec<Diagnostic>)
        ensures
            r@ == self@.diagnostics,
    {
        &self.diagnostics
    }

    /// Mutes voice `v`, or lets it sound again; nothing else changes.
    pub fn set_muted(&mut self, v: usize, muted: bool)
        requires
            v < 4,
        ensures
            final(self)@ == old(self)@.with_voice(
                v as int,
                VoiceModel { muted, ..old(self)@.voices[v as int] },
            ),
            old(self)@.wf() ==> final(self)@.wf(),
    {
        let ghost before = self@;
        assert(before.voices[v as int] == self.channels@[v as int]@);
        self.channels[v].set_muted(muted);
        assert(self@ =~= before.with_voice(
            v as int,
            VoiceModel { muted, ..before.voices[v as int] },
        ));
    }

    /// Commands skipped since the start of the rendering because the format
    /// does not define them. The count stops at the largest `u32`.
    pub fn unknown_commands(&self) -> (r: u32)
        ensures
            r == self@.unknown,
    {
        self.unknown
    }

    /// Puts everything but the voices back to its first value.
    fn clear_clocks(&mut self, header_size: usize)
        ensures
            final(self).channels == old(self).channels,
            final(self).sampler@ == SamplerModel::fresh(),
            final(self).tick_countdown == 0,
            final(self).tick_period == 0,
            final(self).header_size == header_size,
            final(self).unsupported == 0,
            final(self).unknown == 0,
            final(self).diagnostics@ == Seq::<Diagnostic>::empty(),
    {
        self.sampler = Sampler::new();
        self.tick_countdown = 0;
        self.tick_period = 0;
        self.header_size = header_size;
        self.unsupported = 0;
        self.unknown = 0;
        self.diagnostics = Vec::new();
    }
}

} // verus!
