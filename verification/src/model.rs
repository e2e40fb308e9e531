//! The synthesizer as a mathematical machine: the state of the voices, the
//! sampler and the two clocks, and the functions that take one state to the
//! next. The executable engine is specified against these functions.

use vstd::prelude::*;
use crate::error::{Diagnostic, SynthError};
use crate::format::{
    be16, decode, width_of, Command, AMPLITUDE, DC_OFFSET, DEFAULT_FREQUENCY, DEFAULT_OCTAVE,
    DEFAULT_VOLUME, HEADER_LEN, MAX_COMMANDS_PER_FETCH, MAX_DIAGNOSTICS, MAX_LOOPS,
    MAX_SAMPLES, NOTES, PERCUSSION, SAMPLES, SAMPLE_COUNT, SAMPLE_INDICES, SAMPLE_LENGTH,
    SAMPLE_SPEED, TOTAL_VOICES,
};

verus! {

/// One open loop of a voice.
pub struct LoopFrame {
    /// Cursor of the first command of the loop body.
    pub resume: int,
    /// How many more times the loop end jumps back.
    pub remaining: int,
}

impl LoopFrame {
    /// Neither the cursor nor the count of a frame is negative.
    pub open spec fn wf(self) -> bool {
        0 <= self.resume && 0 <= self.remaining
    }
}

/// The registers of one voice.
#[verifier::ext_equal]
pub struct VoiceModel {
    /// Offset of the next command in the stream.
    pub cursor: int,
    /// Amount by which the phase grows on every audio tick.
    pub octave: int,
    /// Right shift that turns the period into the duty threshold.
    pub volume: u8,
    /// Ticks left of the note or rest being played.
    pub remaining_ticks: int,
    /// Open loops, innermost last.
    pub loops: Seq<LoopFrame>,
    /// Where a channel end returns to, while a macro is being played.
    pub return_cursor: Option<int>,
    /// Period of the oscillator.
    pub frequency: u16,
    /// The output is high while the phase is below this value.
    pub duty_threshold: u16,
    /// Phase accumulator.
    pub phase: int,
    /// Last computed output, 0 or 1.
    pub output_level: int,
    /// A muted voice contributes silence whatever its output.
    pub muted: bool,
}

/// The bit reader over the percussion table.
pub struct SamplerModel {
    /// Byte of the table being read.
    pub byte_index: int,
    /// Bit of that byte to read next.
    pub bit_index: int,
    /// Bytes from this index on are not read.
    pub end_index: int,
    /// Audio ticks until the next bit is read.
    pub countdown: int,
}

/// The whole synthesizer.
#[verifier::ext_equal]
pub struct Machine {
    /// The voices, in the order in which they are sampled and processed.
    pub voices: Seq<VoiceModel>,
    /// The sampler behind the percussion voice.
    pub sampler: SamplerModel,
    /// Audio ticks until the next processing pass.
    pub tick_countdown: int,
    /// Value the countdown is reset to at each pass.
    pub tick_period: int,
    /// Offset at which the command data begins.
    pub header_size: int,
    /// Commands skipped because playback does not support them.
    pub unsupported: int,
    /// Commands skipped because the format does not define them.
    pub unknown: int,
    /// What was passed over, in the order in which it was met: the first
    /// `MAX_DIAGNOSTICS` of it.
    pub diagnostics: Seq<Diagnostic>,
}

/// What a command means for the voice that executed it.
#[derive(Debug, Clone, Copy, PartialEq, Eq)]
pub enum Flow {
    /// The command took no time: decode the next one.
    Next,
    /// A note or rest began: the voice is done for this pass.
    Held,
    /// The voice went back to its start and counts as wrapped.
    Wrapped,
    /// The voice met its end a second time in one pass: it holds no note
    /// or rest, and is left alone until the next pass.
    Parked,
}

/// The result of letting one voice fetch its next note or rest.
pub enum Fetched {
    /// The voice is done for this pass; the flags say which voices have
    /// wrapped so far.
    Settled(Machine, Seq<bool>),
    /// Every voice has wrapped in this pass.
    Finished(Machine),
    /// The stream cannot be played.
    Failed(Machine, SynthError),
}

/// The result of one processing pass.
pub enum Passed {
    /// Playback goes on.
    Continue(Machine),
    /// Every voice wrapped in this pass: the song is over.
    Finished(Machine),
    /// The stream cannot be played.
    Failed(Machine, SynthError),
}

/// How a rendering ended.
pub enum Status {
    /// Every voice wrapped in one pass.
    Finished,
    /// The output reached its limit.
    Truncated,
    /// The stream cannot be played.
    Failed(SynthError),
}

/// A rendering: the samples, the machine as it was left, and how it ended.
pub struct Outcome {
    pub machine: Machine,
    pub output: Seq<u8>,
    pub status: Status,
}

/// One more, up to the largest `u32`.
pub open spec fn bump(count: int) -> int {
    if count < u32::MAX {
        count + 1
    } else {
        count
    }
}

/// The read bound of percussion sample `pitch`: one byte short of where the
/// next sample begins.
pub open spec fn sample_end(pitch: u8) -> int {
    SAMPLE_INDICES[pitch as int] - 1
}

impl VoiceModel {
    /// What holds of the registers of a voice at all times.
    #[verifier::opaque]
    pub open spec fn wf(self) -> bool {
        &&& 0 <= self.cursor
        &&& 0 <= self.octave <= 65536
        &&& self.volume < 16
        &&& 0 <= self.remaining_ticks
        &&& self.loops.len() <= MAX_LOOPS
        &&& forall|i: int| 0 <= i < self.loops.len() ==> (#[trigger] self.loops[i]).wf()
        &&& self.return_cursor matches Some(at) ==> 0 <= at
        &&& 0 <= self.phase
        &&& 0 <= self.output_level <= 1
    }

    /// A voice before any command.
    pub open spec fn fresh(muted: bool) -> VoiceModel {
        VoiceModel {
            cursor: 0,
            octave: DEFAULT_OCTAVE as int,
            volume: DEFAULT_VOLUME,
            remaining_ticks: 0,
            loops: Seq::empty(),
            return_cursor: None,
            frequency: DEFAULT_FREQUENCY,
            duty_threshold: 0,
            phase: 0,
            output_level: 0,
            muted,
        }
    }

    /// Moves the cursor over `width` bytes.
    pub open spec fn skip(self, width: int) -> VoiceModel {
        VoiceModel { cursor: self.cursor + width, ..self }
    }

    /// Begins a rest of `ticks` ticks.
    pub open spec fn rest(self, ticks: u8) -> VoiceModel {
        VoiceModel {
            duty_threshold: 0,
            remaining_ticks: ticks as int,
            cursor: self.cursor + 1,
            ..self
        }
    }

    /// Begins note `pitch` on a pulse voice.
    pub open spec fn sound(self, pitch: u8, ticks: u8) -> VoiceModel {
        VoiceModel {
            frequency: NOTES[pitch as int],
            duty_threshold: NOTES[pitch as int] >> (self.volume as u16),
            remaining_ticks: ticks as int,
            cursor: self.cursor + 1,
            ..self
        }
    }

    /// Begins a percussion note: only time passes on the voice itself.
    pub open spec fn strike(self, ticks: u8) -> VoiceModel {
        VoiceModel { remaining_ticks: ticks as int, cursor: self.cursor + 1, ..self }
    }

    /// Executes an octave command.
    pub open spec fn set_octave(self, param: u8) -> VoiceModel {
        VoiceModel { octave: (2u32 << (param as u32)) as int, cursor: self.cursor + 1, ..self }
    }

    /// Executes a volume command.
    pub open spec fn set_volume(self, level: u8) -> VoiceModel {
        VoiceModel { volume: level, cursor: self.cursor + 1, ..self }
    }

    /// Opens a loop of `count` iterations whose body follows the command.
    pub open spec fn enter_loop(self, count: u8) -> VoiceModel {
        VoiceModel {
            loops: self.loops.push(LoopFrame { resume: self.cursor + 2, remaining: count - 1 }),
            cursor: self.cursor + 2,
            ..self
        }
    }

    /// Executes a loop end: back to the body while iterations remain, else
    /// out of the loop.
    pub open spec fn end_loop(self) -> VoiceModel {
        let top = self.loops.last();
        if top.remaining > 0 {
            VoiceModel {
                loops: self.loops.drop_last().push(
                    LoopFrame { resume: top.resume, remaining: top.remaining - 1 },
                ),
                cursor: top.resume,
                ..self
            }
        } else {
            VoiceModel { loops: self.loops.drop_last(), cursor: self.cursor + 1, ..self }
        }
    }

    /// Calls the macro at `target`; the one return slot is overwritten.
    pub open spec fn call(self, target: int) -> VoiceModel {
        VoiceModel { return_cursor: Some(self.cursor + 2), cursor: target, ..self }
    }

    /// Returns from a macro to `at` and clears the return slot.
    pub open spec fn resume(self, at: int) -> VoiceModel {
        VoiceModel { cursor: at, return_cursor: None, ..self }
    }

    /// Goes back to the start of the voice's data.
    pub open spec fn restart(self, start: int) -> VoiceModel {
        VoiceModel { cursor: start, ..self }
    }

    /// Lets one tick of the current note or rest pass.
    pub open spec fn wait(self) -> VoiceModel {
        VoiceModel { remaining_ticks: self.remaining_ticks - 1, ..self }
    }

    /// One audio tick of a pulse voice: the phase grows by the octave
    /// increment and wraps once past the period; the output is high while
    /// the phase is below the duty threshold.
    pub open spec fn oscillate(self) -> VoiceModel {
        let sum = self.phase + self.octave;
        let phase = if sum >= self.frequency {
            sum - self.frequency
        } else {
            sum
        };
        VoiceModel {
            phase,
            output_level: if phase < self.duty_threshold {
                1
            } else {
                0
            },
            ..self
        }
    }

    /// The sample the voice contributes to the output.
    pub open spec fn sample(self) -> u8 {
        if self.muted {
            DC_OFFSET
        } else {
            (self.output_level * AMPLITUDE + DC_OFFSET) as u8
        }
    }
}

impl SamplerModel {
    /// What holds of the sampler at all times: its cursor stays within the
    /// percussion table and never passes the read bound.
    pub open spec fn wf(self) -> bool {
        &&& 0 <= self.byte_index <= self.end_index < SAMPLE_LENGTH
        &&& 0 <= self.bit_index <= 7
        &&& 0 <= self.countdown <= SAMPLE_SPEED
    }

    /// A sampler that plays nothing.
    pub open spec fn fresh() -> SamplerModel {
        SamplerModel { byte_index: 0, bit_index: 0, end_index: 0, countdown: 0 }
    }

    /// The sampler set to the start of percussion sample `pitch`.
    pub open spec fn arm(self, pitch: u8) -> SamplerModel {
        SamplerModel {
            byte_index: SAMPLE_INDICES[pitch - 1] as int,
            bit_index: 0,
            end_index: sample_end(pitch),
            ..self
        }
    }

    /// Whether a bit is read when the countdown runs out.
    pub open spec fn playing(self) -> bool {
        self.byte_index < self.end_index
    }

    /// The bit under the cursor.
    pub open spec fn bit(self) -> int {
        ((SAMPLES[self.byte_index] >> (self.bit_index as u8)) & 1u8) as int
    }

    /// The output of the percussion voice after this tick, given its
    /// output `held` from before: a new bit when the countdown has run
    /// out and a sample is playing, silence when none is, else unchanged.
    pub open spec fn level(self, held: int) -> int {
        if self.countdown != 0 {
            held
        } else if self.playing() {
            self.bit()
        } else {
            0
        }
    }

    /// One audio tick of the sampler.
    pub open spec fn step(self) -> SamplerModel {
        if self.countdown != 0 {
            SamplerModel { countdown: self.countdown - 1, ..self }
        } else if self.playing() {
            if self.bit_index >= 7 {
                SamplerModel {
                    byte_index: self.byte_index + 1,
                    bit_index: 0,
                    countdown: SAMPLE_SPEED as int,
                    ..self
                }
            } else {
                SamplerModel {
                    bit_index: self.bit_index + 1,
                    countdown: SAMPLE_SPEED as int,
                    ..self
                }
            }
        } else {
            SamplerModel { countdown: SAMPLE_SPEED as int, ..self }
        }
    }
}

/// Whether each of the four voices has wrapped.
pub open spec fn all_wrapped(wrapped: Seq<bool>) -> bool {
    wrapped[0] && wrapped[1] && wrapped[2] && wrapped[3]
}

/// No voice has wrapped.
pub open spec fn none_wrapped() -> Seq<bool> {
    seq![false, false, false, false]
}

/// No voice is muted.
pub open spec fn none_muted() -> Seq<bool> {
    seq![false, false, false, false]
}

impl Machine {
    /// What holds of the machine at all times.
    pub open spec fn wf(self) -> bool {
        &&& self.voices.len() == TOTAL_VOICES
        &&& self.voices[0].wf()
        &&& self.voices[1].wf()
        &&& self.voices[2].wf()
        &&& self.voices[3].wf()
        &&& self.sampler.wf()
        &&& 0 <= self.tick_countdown
        &&& 0 <= self.tick_period
        &&& self.diagnostics.len() <= MAX_DIAGNOSTICS
    }

    /// Whether the phase of every voice is at most `bound`.
    pub open spec fn phases_within(self, bound: int) -> bool {
        &&& self.voices[0].phase <= bound
        &&& self.voices[1].phase <= bound
        &&& self.voices[2].phase <= bound
        &&& self.voices[3].phase <= bound
    }

    /// Whether no voice's phase is more than `step` above what it is in
    /// `before`.
    pub open spec fn phases_advanced(self, before: Machine, step: int) -> bool {
        &&& self.voices[0].phase <= before.voices[0].phase + step
        &&& self.voices[1].phase <= before.voices[1].phase + step
        &&& self.voices[2].phase <= before.voices[2].phase + step
        &&& self.voices[3].phase <= before.voices[3].phase + step
    }

    /// Whether every voice has the phase it has in `other`.
    pub open spec fn same_phases(self, other: Machine) -> bool {
        &&& self.voices[0].phase == other.voices[0].phase
        &&& self.voices[1].phase == other.voices[1].phase
        &&& self.voices[2].phase == other.voices[2].phase
        &&& self.voices[3].phase == other.voices[3].phase
    }

    /// The machine before any stream is loaded, with the given mute flags.
    pub open spec fn fresh(mutes: Seq<bool>) -> Machine {
        Machine {
            voices: Seq::new(4, |v: int| VoiceModel::fresh(mutes[v])),
            sampler: SamplerModel::fresh(),
            tick_countdown: 0,
            tick_period: 0,
            header_size: 0,
            unsupported: 0,
            unknown: 0,
            diagnostics: Seq::empty(),
        }
    }

    /// The machine at the start of `data`: fresh, with each voice's cursor
    /// taken from the voice table.
    pub open spec fn start(data: Seq<u8>, mutes: Seq<bool>) -> Machine {
        Machine {
            voices: Seq::new(
                4,
                |v: int| VoiceModel { cursor: be16(data, 2 * v), ..VoiceModel::fresh(mutes[v]) },
            ),
            header_size: be16(data, 0),
            ..Machine::fresh(mutes)
        }
    }

    /// The mute flags of the four voices.
    pub open spec fn mutes(self) -> Seq<bool> {
        Seq::new(4, |v: int| self.voices[v].muted)
    }

    /// The machine with `diagnostic` added to what it keeps, if there is
    /// room for it.
    pub open spec fn noted(self, diagnostic: Diagnostic) -> Machine {
        if self.diagnostics.len() < MAX_DIAGNOSTICS {
            Machine { diagnostics: self.diagnostics.push(diagnostic), ..self }
        } else {
            self
        }
    }

    /// The machine with voice `v` replaced.
    pub open spec fn with_voice(self, v: int, voice: VoiceModel) -> Machine {
        Machine { voices: self.voices.update(v, voice), ..self }
    }

    /// One audio tick: the sampler and the three oscillators advance.
    pub open spec fn audio_tick(self) -> Machine {
        let drum = VoiceModel {
            output_level: self.sampler.level(self.voices[3].output_level),
            ..self.voices[3]
        };
        Machine {
            voices: seq![
                self.voices[0].oscillate(),
                self.voices[1].oscillate(),
                self.voices[2].oscillate(),
                drum,
            ],
            sampler: self.sampler.step(),
            ..self
        }
    }

    /// The four samples of one tick, in voice order.
    pub open spec fn frame(self) -> Seq<u8> {
        seq![
            self.voices[0].sample(),
            self.voices[1].sample(),
            self.voices[2].sample(),
            self.voices[3].sample(),
        ]
    }
}

/// The diagnostic for the unknown byte at the cursor of voice `v`.
pub open spec fn unknown_at(m: Machine, v: int, data: Seq<u8>) -> Diagnostic {
    Diagnostic::Unknown { byte: data[m.voices[v].cursor], cursor: m.voices[v].cursor as usize }
}

/// Voice `v` executes `cmd`, which was decoded at its cursor. `wrapped`
/// says whether the voice has already wrapped in this pass.
pub open spec fn apply(m: Machine, v: int, cmd: Command, data: Seq<u8>, wrapped: bool) -> Result<
    (Machine, Flow),
    SynthError,
> {
    let voice = m.voices[v];
    match cmd {
        Command::Rest { ticks } => Ok((m.with_voice(v, voice.rest(ticks)), Flow::Held)),
        Command::Note { pitch, ticks } => {
            if v != PERCUSSION {
                Ok((m.with_voice(v, voice.sound(pitch, ticks)), Flow::Held))
            } else if pitch <= SAMPLE_COUNT {
                Ok(
                    (
                        Machine { sampler: m.sampler.arm(pitch), ..m }.with_voice(
                            v,
                            voice.strike(ticks),
                        ),
                        Flow::Held,
                    ),
                )
            } else {
                Ok(
                    (
                        Machine { unknown: bump(m.unknown), ..m }.noted(unknown_at(m, v, data)).with_voice(
                            v,
                            voice.skip(1),
                        ),
                        Flow::Next,
                    ),
                )
            }
        },
        Command::SetOctave { param } => Ok((m.with_voice(v, voice.set_octave(param)), Flow::Next)),
        Command::SetVolume { level } => Ok((m.with_voice(v, voice.set_volume(level)), Flow::Next)),
        Command::LoopStart { count } => {
            if count == 0 {
                Err(SynthError::ZeroLoopCount)
            } else if voice.loops.len() >= MAX_LOOPS {
                Err(SynthError::LoopStackOverflow)
            } else {
                Ok((m.with_voice(v, voice.enter_loop(count)), Flow::Next))
            }
        },
        Command::LoopEnd => {
            if voice.loops.len() == 0 {
                Err(SynthError::LoopStackUnderflow)
            } else {
                Ok((m.with_voice(v, voice.end_loop()), Flow::Next))
            }
        },
        Command::MacroCall { id } => {
            let entry = (id + 4) * 2;
            if entry + 1 >= data.len() {
                Err(SynthError::MacroOutOfBounds)
            } else {
                Ok((m.with_voice(v, voice.call(be16(data, entry))), Flow::Next))
            }
        },
        Command::SetTempo { arg } => Ok(
            (
                Machine { tick_period: ((arg as u16) << 3) as int, ..m }.with_voice(
                    v,
                    voice.skip(2),
                ),
                Flow::Next,
            ),
        ),
        Command::Unsupported { feature } => Ok(
            (
                Machine { unsupported: bump(m.unsupported), ..m }.noted(
                    Diagnostic::Unsupported { feature, cursor: voice.cursor as usize },
                ).with_voice(v, voice.skip(width_of(feature))),
                Flow::Next,
            ),
        ),
        Command::DebugMarker => Ok(
            (
                m.noted(Diagnostic::DebugMarker { cursor: voice.cursor as usize }).with_voice(
                    v,
                    voice.skip(1),
                ),
                Flow::Next,
            ),
        ),
        Command::Unknown => Ok(
            (
                Machine { unknown: bump(m.unknown), ..m }.noted(unknown_at(m, v, data)).with_voice(
                    v,
                    voice.skip(1),
                ),
                Flow::Next,
            ),
        ),
        Command::ChannelEnd => match voice.return_cursor {
            Some(at) => Ok((m.with_voice(v, voice.resume(at)), Flow::Next)),
            None => if wrapped {
                Ok((m, Flow::Parked))
            } else {
                Ok((m.with_voice(v, voice.restart(be16(data, 2 * v))), Flow::Wrapped))
            },
        },
    }
}

/// Voice `v` decodes and executes commands until a note or rest begins,
/// the voice is parked, every voice has wrapped, or the stream fails. At
/// most `budget` commands are executed.
pub open spec fn fetch(m: Machine, v: int, data: Seq<u8>, wrapped: Seq<bool>, budget: nat) -> Fetched
    decreases budget,
{
    if budget == 0 {
        Fetched::Failed(m, SynthError::Runaway)
    } else {
        match decode(data, m.voices[v].cursor) {
            Err(e) => Fetched::Failed(m, e),
            Ok(cmd) => match apply(m, v, cmd, data, wrapped[v]) {
                Err(e) => Fetched::Failed(m, e),
                Ok((next, flow)) => match flow {
                    Flow::Next => fetch(next, v, data, wrapped, (budget - 1) as nat),
                    Flow::Held => Fetched::Settled(next, wrapped),
                    Flow::Parked => Fetched::Settled(next, wrapped),
                    Flow::Wrapped => {
                        let flags = wrapped.update(v, true);
                        if all_wrapped(flags) {
                            Fetched::Finished(next)
                        } else {
                            fetch(next, v, data, flags, (budget - 1) as nat)
                        }
                    },
                },
            },
        }
    }
}

/// The part of a processing pass that concerns voices `v` and up: a voice
/// whose note is still playing waits one tick, the others fetch.
pub open spec fn pass(m: Machine, data: Seq<u8>, v: int, wrapped: Seq<bool>) -> Passed
    decreases 4 - v,
{
    if v < 0 || v >= 4 {
        Passed::Continue(m)
    } else if m.voices[v].remaining_ticks != 0 {
        pass(m.with_voice(v, m.voices[v].wait()), data, v + 1, wrapped)
    } else {
        match fetch(m, v, data, wrapped, MAX_COMMANDS_PER_FETCH as nat) {
            Fetched::Settled(next, flags) => pass(next, data, v + 1, flags),
            Fetched::Finished(next) => Passed::Finished(next),
            Fetched::Failed(next, e) => Passed::Failed(next, e),
        }
    }
}

/// Playback from machine `m` on, with `output` already produced: audio
/// ticks, each followed by a processing pass when the tick countdown has
/// run out, until a pass finishes the song, the output holds `limit`
/// samples, or the stream fails.
pub open spec fn run(m: Machine, data: Seq<u8>, limit: nat, output: Seq<u8>) -> Outcome
    decreases limit - output.len(),
{
    if output.len() >= limit {
        Outcome { machine: m, output, status: Status::Truncated }
    } else {
        let room = limit - output.len();
        let ticked = m.audio_tick();
        if room <= 4 {
            Outcome {
                machine: ticked,
                output: output + ticked.frame().take(room),
                status: Status::Truncated,
            }
        } else {
            let produced = output + ticked.frame();
            if ticked.tick_countdown != 0 {
                run(
                    Machine { tick_countdown: ticked.tick_countdown - 1, ..ticked },
                    data,
                    limit,
                    produced,
                )
            } else {
                match pass(
                    Machine { tick_countdown: ticked.tick_period, ..ticked },
                    data,
                    0,
                    none_wrapped(),
                ) {
                    Passed::Continue(next) => run(next, data, limit, produced),
                    Passed::Finished(next) => Outcome {
                        machine: next,
                        output: produced,
                        status: Status::Finished,
                    },
                    Passed::Failed(next, e) => Outcome {
                        machine: next,
                        output: produced,
                        status: Status::Failed(e),
                    },
                }
            }
        }
    }
}

/// The number of samples a rendering may hold when the caller allows
/// `limit`: never more than `MAX_SAMPLES`.
pub open spec fn effective_limit(limit: nat) -> nat {
    if limit < MAX_SAMPLES {
        limit
    } else {
        MAX_SAMPLES as nat
    }
}

/// The rendering of `data` by a fresh machine with the given mute flags,
/// cut at `limit` samples.
pub open spec fn render(data: Seq<u8>, mutes: Seq<bool>, limit: nat) -> Outcome {
    if data.len() < HEADER_LEN {
        Outcome {
            machine: Machine::fresh(mutes),
            output: Seq::empty(),
            status: Status::Failed(SynthError::HeaderTooShort),
        }
    } else {
        run(Machine::start(data, mutes), data, effective_limit(limit), Seq::empty())
    }
}

} // verus!
