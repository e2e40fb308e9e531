//! Laws of the machine: what follows, for every stream and every state,
//! from the transition functions.

use vstd::prelude::*;
use crate::error::{Diagnostic, SynthError};
use crate::format::{
    be16, decode, width_of, Command, Feature, AMPLITUDE, DC_OFFSET, HEADER_LEN,
    MAX_COMMANDS_PER_FETCH, MAX_DIAGNOSTICS, MAX_LOOPS, MAX_SAMPLES, NOTES, PERCUSSION, SAMPLES,
    SAMPLE_COUNT,
};
use crate::model::{
    all_wrapped, apply, bump, effective_limit, fetch, none_muted, none_wrapped, pass, render,
    run, Fetched, Flow, LoopFrame, Machine, Outcome, Passed, Status, VoiceModel,
};

verus! {

/// The phase increment that the octave command with parameter `p` asks
/// for, written out for the eight octaves.
pub open spec fn octave_increment(p: u8) -> int {
    if p == 0 {
        2
    } else if p == 1 {
        4
    } else if p == 2 {
        8
    } else if p == 3 {
        16
    } else if p == 4 {
        32
    } else if p == 5 {
        64
    } else if p == 6 {
        128
    } else {
        256
    }
}

/// An octave command with parameter `p` is the byte `0xD0 + p`. Executed
/// by voice `v` it sets that voice's phase increment to `2 << p`, which
/// for `p` up to 7 is 2, 4, 8, ... 256; it takes no time and moves the
/// cursor by one.
pub proof fn law_octave_command(m: Machine, v: int, data: Seq<u8>, wrapped: bool, p: u8)
    requires
        0 <= v < 4,
        m.voices.len() == 4,
        p <= 7,
        0 <= m.voices[v].cursor < data.len(),
        data[m.voices[v].cursor] == 0xD0 + p,
    ensures
        decode(data, m.voices[v].cursor) == Ok::<Command, SynthError>(
            Command::SetOctave { param: p },
        ),
        ({
            &&& apply(m, v, Command::SetOctave { param: p }, data, wrapped) matches Ok((next, flow))
            &&& flow == Flow::Next
            &&& next.voices[v].octave == (2u32 << (p as u32))
            &&& next.voices[v].octave == octave_increment(p)
            &&& next.voices[v].cursor == m.voices[v].cursor + 1
        }),
{
    assert(p <= 7 ==> (2u32 << (p as u32)) == (if p == 0 {
        2u32
    } else if p == 1 {
        4u32
    } else if p == 2 {
        8u32
    } else if p == 3 {
        16u32
    } else if p == 4 {
        32u32
    } else if p == 5 {
        64u32
    } else if p == 6 {
        128u32
    } else {
        256u32
    })) by (bit_vector);
}

/// A note decoded on a pulse voice after the volume was set to `level`
/// gets the period of its pitch and the duty threshold `period >> level`.
pub proof fn law_volume_sets_duty(
    m: Machine,
    v: int,
    data: Seq<u8>,
    wrapped: bool,
    level: u8,
    pitch: u8,
    ticks: u8,
)
    requires
        0 <= v < 3,
        m.voices.len() == 4,
        level < 16,
        1 <= pitch <= 12,
    ensures
        ({
            &&& apply(m, v, Command::SetVolume { level }, data, wrapped) matches Ok((quiet, _))
            &&& apply(quiet, v, Command::Note { pitch, ticks }, data, wrapped) matches Ok(
                (next, flow),
            )
            &&& flow == Flow::Held
            &&& next.voices[v].frequency == NOTES[pitch as int]
            &&& next.voices[v].duty_threshold == NOTES[pitch as int] >> (level as u16)
        }),
        level >= 11 ==> NOTES[pitch as int] >> (level as u16) == 0,
{
    let period: u16 = NOTES[pitch as int];
    let shift: u16 = level as u16;
    assert(period < 2048 && 11 <= shift < 16 ==> period >> shift == 0) by (bit_vector);
}

/// The voice after `ticks` audio ticks in which no command touches it.
pub open spec fn oscillated(voice: VoiceModel, ticks: nat) -> VoiceModel
    decreases ticks,
{
    if ticks == 0 {
        voice
    } else {
        oscillated(voice, (ticks - 1) as nat).oscillate()
    }
}

/// A pulse voice whose duty threshold is zero is silent: on every audio
/// tick, for as long as no note sets a new threshold, its output is low
/// and its sample is the silence level.
pub proof fn law_zero_duty_is_silent(voice: VoiceModel, ticks: nat)
    requires
        voice.duty_threshold == 0,
        voice.phase >= 0,
        voice.octave >= 0,
        ticks >= 1,
    ensures
        oscillated(voice, ticks).output_level == 0,
        oscillated(voice, ticks).sample() == DC_OFFSET,
        oscillated(voice, ticks).duty_threshold == 0,
    decreases ticks,
{
    lemma_oscillated_keeps(voice, (ticks - 1) as nat);
}

/// Audio ticks change the phase and the output of a voice, and nothing
/// else; the phase never turns negative.
pub proof fn lemma_oscillated_keeps(voice: VoiceModel, ticks: nat)
    requires
        voice.phase >= 0,
        voice.octave >= 0,
    ensures
        oscillated(voice, ticks).phase >= 0,
        oscillated(voice, ticks) == (VoiceModel {
            phase: oscillated(voice, ticks).phase,
            output_level: oscillated(voice, ticks).output_level,
            ..voice
        }),
    decreases ticks,
{
    if ticks > 0 {
        lemma_oscillated_keeps(voice, (ticks - 1) as nat);
    }
}

/// The voice after it has met the loop end at `end` `times` times, with
/// the loop stack each time as the meeting before left it.
pub open spec fn after_loop_ends(voice: VoiceModel, end: int, times: nat) -> VoiceModel
    decreases times,
{
    if times == 0 {
        voice
    } else {
        (VoiceModel { cursor: end, ..after_loop_ends(voice, end, (times - 1) as nat) }).end_loop()
    }
}

/// A loop of `count` iterations runs its body exactly `count` times: after
/// the loop start, each of the first `count - 1` meetings with the loop end
/// sends the voice back to the first command of the body, and the
/// `count`-th lets it pass to the command behind the loop end, with the
/// loop stack as it was before the loop start.
pub proof fn law_loop_runs_count_times(voice: VoiceModel, count: u8, end: int, times: nat)
    requires
        count >= 1,
        times <= count,
    ensures
        times < count ==> after_loop_ends(voice.enter_loop(count), end, times).cursor
            == voice.cursor + 2 && after_loop_ends(voice.enter_loop(count), end, times).loops
            == voice.loops.push(
            LoopFrame { resume: voice.cursor + 2, remaining: count - 1 - times },
        ),
        times == count ==> after_loop_ends(voice.enter_loop(count), end, times).cursor == end + 1
            && after_loop_ends(voice.enter_loop(count), end, times).loops == voice.loops,
    decreases times,
{
    if times > 0 {
        law_loop_runs_count_times(voice, count, end, (times - 1) as nat);
        let before = after_loop_ends(voice.enter_loop(count), end, (times - 1) as nat);
        let frame = LoopFrame { resume: voice.cursor + 2, remaining: count - times };
        assert(before.loops == voice.loops.push(frame));
        assert(before.loops.drop_last() =~= voice.loops);
        let met = VoiceModel { cursor: end, ..before };
        assert(met.loops.last() == frame);
        if times < count {
            assert(met.end_loop().loops =~= voice.loops.push(
                LoopFrame { resume: voice.cursor + 2, remaining: count - 1 - times },
            ));
        } else {
            assert(met.end_loop().loops =~= voice.loops);
        }
    } else {
        assert(voice.enter_loop(count).loops =~= voice.loops.push(
            LoopFrame { resume: voice.cursor + 2, remaining: count - 1 },
        ));
    }
}

/// Loop start and loop end as voice `v` executes them: the start is
/// refused for a count of zero and on a full loop stack, the end on an
/// empty one; otherwise they act on the voice as `enter_loop` and
/// `end_loop` say, and take no time.
pub proof fn law_loop_commands(m: Machine, v: int, data: Seq<u8>, wrapped: bool, count: u8)
    requires
        0 <= v < 4,
        m.voices.len() == 4,
    ensures
        apply(m, v, Command::LoopStart { count }, data, wrapped) == (if count == 0 {
            Err::<(Machine, Flow), SynthError>(SynthError::ZeroLoopCount)
        } else if m.voices[v].loops.len() >= MAX_LOOPS {
            Err::<(Machine, Flow), SynthError>(SynthError::LoopStackOverflow)
        } else {
            Ok::<(Machine, Flow), SynthError>(
                (m.with_voice(v, m.voices[v].enter_loop(count)), Flow::Next),
            )
        }),
        apply(m, v, Command::LoopEnd, data, wrapped) == (if m.voices[v].loops.len() == 0 {
            Err::<(Machine, Flow), SynthError>(SynthError::LoopStackUnderflow)
        } else {
            Ok::<(Machine, Flow), SynthError>((m.with_voice(v, m.voices[v].end_loop()), Flow::Next))
        }),
{
}

/// A macro call saves the cursor of the command behind it in the voice's
/// one return slot and jumps to the macro's table entry. The channel end
/// that follows resumes exactly at the saved cursor and empties the slot.
pub proof fn law_macro_returns(m: Machine, v: int, data: Seq<u8>, wrapped: bool, id: u8)
    requires
        0 <= v < 4,
        m.voices.len() == 4,
        (id + 4) * 2 + 1 < data.len(),
    ensures
        ({
            &&& apply(m, v, Command::MacroCall { id }, data, wrapped) matches Ok((called, flow))
            &&& flow == Flow::Next
            &&& called.voices[v].cursor == be16(data, (id + 4) * 2)
            &&& called.voices[v].return_cursor == Some(m.voices[v].cursor + 2)
            &&& apply(called, v, Command::ChannelEnd, data, wrapped) matches Ok((back, resumed))
            &&& resumed == Flow::Next
            &&& back.voices[v].cursor == m.voices[v].cursor + 2
            &&& back.voices[v].return_cursor.is_none()
        }),
{
}

/// A second macro call before the return overwrites the return slot: the
/// next channel end resumes behind the second call, and nothing is left
/// of the first.
pub proof fn law_second_call_overwrites(
    m: Machine,
    v: int,
    data: Seq<u8>,
    wrapped: bool,
    first: u8,
    second: u8,
)
    requires
        0 <= v < 4,
        m.voices.len() == 4,
        (first + 4) * 2 + 1 < data.len(),
        (second + 4) * 2 + 1 < data.len(),
    ensures
        ({
            &&& apply(m, v, Command::MacroCall { id: first }, data, wrapped) matches Ok((once, _))
            &&& apply(once, v, Command::MacroCall { id: second }, data, wrapped) matches Ok(
                (twice, _),
            )
            &&& twice.voices[v].return_cursor == Some(be16(data, (first + 4) * 2) + 2)
            &&& apply(twice, v, Command::ChannelEnd, data, wrapped) matches Ok((back, _))
            &&& back.voices[v].cursor == be16(data, (first + 4) * 2) + 2
            &&& back.voices[v].return_cursor.is_none()
        }),
{
}

/// Only a macro call and a channel end touch the return slot: whatever
/// else a voice executes between the two, the saved cursor stays.
pub proof fn law_return_slot_kept(m: Machine, v: int, cmd: Command, data: Seq<u8>, wrapped: bool)
    requires
        0 <= v < 4,
        m.voices.len() == 4,
        !(cmd is MacroCall),
        !(cmd is ChannelEnd),
    ensures
        apply(m, v, cmd, data, wrapped) matches Ok((next, _)) ==> next.voices[v].return_cursor
            == m.voices[v].return_cursor,
{
}

/// Playback never produces more than its limit, keeps what was produced
/// before, and is reported as truncated only with exactly `limit` samples.
pub proof fn law_run_bounded(m: Machine, data: Seq<u8>, limit: nat, output: Seq<u8>)
    requires
        output.len() <= limit,
    ensures
        output.len() <= run(m, data, limit, output).output.len() <= limit,
        run(m, data, limit, output).output.subrange(0, output.len() as int) == output,
        run(m, data, limit, output).status == Status::Truncated ==> run(
            m,
            data,
            limit,
            output,
        ).output.len() == limit,
        output.len() < limit ==> output.len() < run(m, data, limit, output).output.len(),
    decreases limit - output.len(),
{
    if output.len() >= limit {
        assert(output.subrange(0, output.len() as int) =~= output);
    } else {
        let room = limit - output.len();
        let ticked = m.audio_tick();
        if room <= 4 {
            let cut = output + ticked.frame().take(room);
            assert(cut.subrange(0, output.len() as int) =~= output);
        } else {
            let produced = output + ticked.frame();
            assert(produced.subrange(0, output.len() as int) =~= output);
            if ticked.tick_countdown != 0 {
                let next = Machine { tick_countdown: ticked.tick_countdown - 1, ..ticked };
                law_run_bounded(next, data, limit, produced);
                let all = run(next, data, limit, produced).output;
                assert(all.subrange(0, output.len() as int) =~= all.subrange(
                    0,
                    produced.len() as int,
                ).subrange(0, output.len() as int));
            } else {
                match pass(
                    Machine { tick_countdown: ticked.tick_period, ..ticked },
                    data,
                    0,
                    none_wrapped(),
                ) {
                    Passed::Continue(next) => {
                        law_run_bounded(next, data, limit, produced);
                        let all = run(next, data, limit, produced).output;
                        assert(all.subrange(0, output.len() as int) =~= all.subrange(
                            0,
                            produced.len() as int,
                        ).subrange(0, output.len() as int));
                    },
                    Passed::Finished(_) => {},
                    Passed::Failed(_, _) => {},
                }
            }
        }
    }
}

/// A rendering never exceeds the limit it was given nor `MAX_SAMPLES`,
/// however the stream loops; it is reported as truncated only when it
/// holds exactly that many samples; and when the stream has its voice
/// table and the limit is not zero, it is not empty.
pub proof fn law_render_bounded(data: Seq<u8>, mutes: Seq<bool>, limit: nat)
    ensures
        render(data, mutes, limit).output.len() <= effective_limit(limit) <= MAX_SAMPLES,
        render(data, mutes, limit).output.len() <= limit,
        render(data, mutes, limit).status == Status::Truncated ==> render(
            data,
            mutes,
            limit,
        ).output.len() == effective_limit(limit),
        data.len() >= HEADER_LEN && limit >= 1 ==> render(data, mutes, limit).output.len() >= 1,
{
    if data.len() >= HEADER_LEN {
        law_run_bounded(
            Machine::start(data, mutes),
            data,
            effective_limit(limit),
            Seq::<u8>::empty(),
        );
    }
}

/// A voice whose data is nothing but a channel end wraps and is then
/// parked: its fetch settles with the voice marked as wrapped, or, when
/// the other three have wrapped already, finishes the song.
pub proof fn lemma_empty_voice_fetch(m: Machine, v: int, data: Seq<u8>, wrapped: Seq<bool>)
    requires
        0 <= v < 4,
        m.voices.len() == 4,
        wrapped.len() == 4,
        !wrapped[v],
        m.voices[v].return_cursor.is_none(),
        m.voices[v].cursor == be16(data, 2 * v),
        0 <= m.voices[v].cursor,
        m.voices[v].cursor + 1 < data.len(),
        data[m.voices[v].cursor] == 0xFF,
    ensures
        fetch(m, v, data, wrapped, MAX_COMMANDS_PER_FETCH as nat) == (if all_wrapped(
            wrapped.update(v, true),
        ) {
            Fetched::Finished(m)
        } else {
            Fetched::Settled(m, wrapped.update(v, true))
        }),
{
    reveal_with_fuel(fetch, 3);
    let restarted = m.with_voice(v, m.voices[v].restart(be16(data, 2 * v)));
    assert(restarted.voices =~= m.voices);
    assert(restarted == m);
}

/// When each of the four voices points at once at a channel end, the
/// rendering ends after a single audio tick: it holds the four samples of
/// that tick, all silent, and the song counts as finished.
pub proof fn law_empty_song_is_one_tick(data: Seq<u8>, mutes: Seq<bool>, limit: nat)
    requires
        data.len() >= HEADER_LEN,
        limit > 4,
        forall|v: int|
            0 <= v < 4 ==> be16(data, 2 * v) + 1 < data.len() && #[trigger] data[be16(
                data,
                2 * v,
            )] == 0xFF,
    ensures
        render(data, mutes, limit).status == Status::Finished,
        render(data, mutes, limit).output == seq![DC_OFFSET, DC_OFFSET, DC_OFFSET, DC_OFFSET],
{
    let start = Machine::start(data, mutes);
    let ticked = start.audio_tick();
    let armed = Machine { tick_countdown: ticked.tick_period, ..ticked };
    let w0 = none_wrapped();
    let w1 = w0.update(0, true);
    let w2 = w1.update(1, true);
    let w3 = w2.update(2, true);
    assert(data[be16(data, 2 * 0int)] == 0xFF);
    assert(data[be16(data, 2 * 1int)] == 0xFF);
    assert(data[be16(data, 2 * 2int)] == 0xFF);
    assert(data[be16(data, 2 * 3int)] == 0xFF);
    lemma_empty_voice_fetch(armed, 0, data, w0);
    lemma_empty_voice_fetch(armed, 1, data, w1);
    lemma_empty_voice_fetch(armed, 2, data, w2);
    lemma_empty_voice_fetch(armed, 3, data, w3);
    reveal_with_fuel(pass, 5);
    assert(pass(armed, data, 0, w0) == Passed::Finished(armed));
    assert(ticked.frame() =~= seq![DC_OFFSET, DC_OFFSET, DC_OFFSET, DC_OFFSET]);
    assert(Seq::<u8>::empty() + ticked.frame() =~= ticked.frame());
}

/// What is skipped is kept for the caller: while there is room, an
/// unsupported command leaves its feature and its place, an unknown
/// command its byte and its place, and a debug marker its place. Each is
/// added behind what was kept before, takes no time, and moves the cursor
/// over the command; the first two are counted as well.
pub proof fn law_skipped_commands_are_noted(
    m: Machine,
    v: int,
    data: Seq<u8>,
    wrapped: bool,
    feature: Feature,
)
    requires
        0 <= v < 4,
        m.voices.len() == 4,
        m.diagnostics.len() < MAX_DIAGNOSTICS,
    ensures
        ({
            &&& apply(m, v, Command::Unsupported { feature }, data, wrapped) matches Ok((next, flow))
            &&& flow == Flow::Next
            &&& next.diagnostics == m.diagnostics.push(
                Diagnostic::Unsupported { feature, cursor: m.voices[v].cursor as usize },
            )
            &&& next.unsupported == bump(m.unsupported)
            &&& next.unknown == m.unknown
            &&& next.voices[v] == m.voices[v].skip(width_of(feature))
        }),
        ({
            &&& apply(m, v, Command::Unknown, data, wrapped) matches Ok((next, flow))
            &&& flow == Flow::Next
            &&& next.diagnostics == m.diagnostics.push(
                Diagnostic::Unknown {
                    byte: data[m.voices[v].cursor],
                    cursor: m.voices[v].cursor as usize,
                },
            )
            &&& next.unknown == bump(m.unknown)
            &&& next.unsupported == m.unsupported
            &&& next.voices[v] == m.voices[v].skip(1)
        }),
        ({
            &&& apply(m, v, Command::DebugMarker, data, wrapped) matches Ok((next, flow))
            &&& flow == Flow::Next
            &&& next.diagnostics == m.diagnostics.push(
                Diagnostic::DebugMarker { cursor: m.voices[v].cursor as usize },
            )
            &&& next.unknown == m.unknown
            &&& next.unsupported == m.unsupported
            &&& next.voices[v] == m.voices[v].skip(1)
        }),
{
}

/// Whether voice `v` skips `cmd` rather than executes it.
pub open spec fn is_skipped(v: int, cmd: Command) -> bool {
    ||| cmd is Unsupported
    ||| cmd is Unknown
    ||| cmd is DebugMarker
    ||| cmd matches Command::Note { pitch, .. } && v == PERCUSSION && pitch > SAMPLE_COUNT
}

/// A command that is executed leaves no diagnostic and counts as
/// neither unsupported nor unknown.
pub proof fn law_executed_commands_note_nothing(
    m: Machine,
    v: int,
    cmd: Command,
    data: Seq<u8>,
    wrapped: bool,
)
    requires
        0 <= v < 4,
        m.voices.len() == 4,
        !is_skipped(v, cmd),
    ensures
        apply(m, v, cmd, data, wrapped) matches Ok((next, _)) ==> next.diagnostics
            == m.diagnostics && next.unsupported == m.unsupported && next.unknown == m.unknown,
{
}

/// The machine of a result of `fetch`.
pub open spec fn fetched_machine(fetched: Fetched) -> Machine {
    match fetched {
        Fetched::Settled(m, _) => m,
        Fetched::Finished(m) => m,
        Fetched::Failed(m, _) => m,
    }
}

/// The machine of a result of `pass`.
pub open spec fn passed_machine(passed: Passed) -> Machine {
    match passed {
        Passed::Continue(m) => m,
        Passed::Finished(m) => m,
        Passed::Failed(m, _) => m,
    }
}

/// No command changes a mute flag or the number of voices.
pub proof fn lemma_apply_keeps_mutes(m: Machine, v: int, cmd: Command, data: Seq<u8>, wrapped: bool)
    requires
        0 <= v < 4,
        m.voices.len() == 4,
    ensures
        apply(m, v, cmd, data, wrapped) matches Ok((next, _)) ==> next.voices.len() == 4
            && next.mutes() == m.mutes(),
{
    match apply(m, v, cmd, data, wrapped) {
        Ok((next, _)) => {
            assert(next.mutes() =~= m.mutes());
        },
        Err(_) => {},
    }
}

/// No fetch changes a mute flag or the number of voices.
pub proof fn lemma_fetch_keeps_mutes(
    m: Machine,
    v: int,
    data: Seq<u8>,
    wrapped: Seq<bool>,
    budget: nat,
)
    requires
        0 <= v < 4,
        m.voices.len() == 4,
    ensures
        fetched_machine(fetch(m, v, data, wrapped, budget)).voices.len() == 4,
        fetched_machine(fetch(m, v, data, wrapped, budget)).mutes() == m.mutes(),
    decreases budget,
{
    if budget > 0 {
        match decode(data, m.voices[v].cursor) {
            Err(_) => {},
            Ok(cmd) => {
                lemma_apply_keeps_mutes(m, v, cmd, data, wrapped[v]);
                match apply(m, v, cmd, data, wrapped[v]) {
                    Err(_) => {},
                    Ok((next, flow)) => {
                        match flow {
                            Flow::Next => {
                                lemma_fetch_keeps_mutes(
                                    next,
                                    v,
                                    data,
                                    wrapped,
                                    (budget - 1) as nat,
                                );
                            },
                            Flow::Wrapped => {
                                lemma_fetch_keeps_mutes(
                                    next,
                                    v,
                                    data,
                                    wrapped.update(v, true),
                                    (budget - 1) as nat,
                                );
                            },
                            _ => {},
                        }
                    },
                }
            },
        }
    }
}

/// No processing pass changes a mute flag or the number of voices.
pub proof fn lemma_pass_keeps_mutes(m: Machine, data: Seq<u8>, v: int, wrapped: Seq<bool>)
    requires
        0 <= v <= 4,
        m.voices.len() == 4,
    ensures
        passed_machine(pass(m, data, v, wrapped)).voices.len() == 4,
        passed_machine(pass(m, data, v, wrapped)).mutes() == m.mutes(),
    decreases 4 - v,
{
    if v < 4 {
        if m.voices[v].remaining_ticks != 0 {
            let waited = m.with_voice(v, m.voices[v].wait());
            assert(waited.mutes() =~= m.mutes());
            lemma_pass_keeps_mutes(waited, data, v + 1, wrapped);
        } else {
            lemma_fetch_keeps_mutes(m, v, data, wrapped, MAX_COMMANDS_PER_FETCH as nat);
            match fetch(m, v, data, wrapped, MAX_COMMANDS_PER_FETCH as nat) {
                Fetched::Settled(next, flags) => {
                    lemma_pass_keeps_mutes(next, data, v + 1, flags);
                },
                _ => {},
            }
        }
    }
}

/// Whether `output` is silent wherever it holds the sample of a muted
/// voice: sample `i` belongs to voice `i % 4`.
pub open spec fn muted_voices_silent(output: Seq<u8>, mutes: Seq<bool>) -> bool {
    forall|i: int| 0 <= i < output.len() && mutes[i % 4] ==> #[trigger] output[i] == DC_OFFSET
}

/// Playback keeps the mute flags, and every sample it adds for a muted
/// voice is the silence level.
pub proof fn law_run_mutes(m: Machine, data: Seq<u8>, limit: nat, output: Seq<u8>)
    requires
        m.voices.len() == 4,
        output.len() % 4 == 0,
        muted_voices_silent(output, m.mutes()),
    ensures
        run(m, data, limit, output).machine.mutes() == m.mutes(),
        muted_voices_silent(run(m, data, limit, output).output, m.mutes()),
    decreases limit - output.len(),
{
    if output.len() < limit {
        let room = limit - output.len();
        let ticked = m.audio_tick();
        assert(ticked.mutes() =~= m.mutes());
        let frame = ticked.frame();
        assert forall|k: int| 0 <= k < 4 && m.mutes()[k] implies #[trigger] frame[k]
            == DC_OFFSET by {
            assert(ticked.mutes()[k] == ticked.voices[k].muted);
        }
        if room <= 4 {
            let cut = output + frame.take(room);
            assert forall|i: int| 0 <= i < cut.len() && m.mutes()[i % 4] implies #[trigger] cut[i]
                == DC_OFFSET by {
                if i >= output.len() {
                    assert(cut[i] == frame[i - output.len()]);
                    assert((i - output.len()) == i % 4);
                } else {
                    assert(cut[i] == output[i]);
                }
            }
        } else {
            let produced = output + frame;
            assert forall|i: int|
                0 <= i < produced.len() && m.mutes()[i % 4] implies #[trigger] produced[i]
                == DC_OFFSET by {
                if i >= output.len() {
                    assert(produced[i] == frame[i - output.len()]);
                    assert((i - output.len()) == i % 4);
                } else {
                    assert(produced[i] == output[i]);
                }
            }
            if ticked.tick_countdown != 0 {
                let next = Machine { tick_countdown: ticked.tick_countdown - 1, ..ticked };
                assert(next.mutes() =~= m.mutes());
                law_run_mutes(next, data, limit, produced);
            } else {
                let armed = Machine { tick_countdown: ticked.tick_period, ..ticked };
                assert(armed.mutes() =~= m.mutes());
                lemma_pass_keeps_mutes(armed, data, 0, none_wrapped());
                match pass(armed, data, 0, none_wrapped()) {
                    Passed::Continue(next) => {
                        law_run_mutes(next, data, limit, produced);
                    },
                    _ => {},
                }
            }
        }
    }
}

/// A muted voice is silent throughout: in a rendering, each sample of a
/// voice whose mute flag is set is the silence level, whatever the stream
/// makes the voice play. The mute flags themselves are left as given.
pub proof fn law_muted_voices_are_silent(data: Seq<u8>, mutes: Seq<bool>, limit: nat)
    requires
        mutes.len() == 4,
    ensures
        muted_voices_silent(render(data, mutes, limit).output, mutes),
        render(data, mutes, limit).machine.mutes() == mutes,
{
    if data.len() >= HEADER_LEN {
        let start = Machine::start(data, mutes);
        assert(start.mutes() =~= mutes);
        law_run_mutes(start, data, effective_limit(limit), Seq::<u8>::empty());
    } else {
        assert(Machine::fresh(mutes).mutes() =~= mutes);
    }
}

/// Whether the fields of `cmd` are within what the format can encode.
pub open spec fn in_format(cmd: Command) -> bool {
    match cmd {
        Command::Note { pitch, .. } => 1 <= pitch <= 12,
        Command::SetOctave { param } => param < 16,
        Command::SetVolume { level } => level < 16,
        _ => true,
    }
}

/// Decoding yields only commands within the format.
pub proof fn lemma_decode_in_format(data: Seq<u8>, cursor: int)
    ensures
        decode(data, cursor) matches Ok(cmd) ==> in_format(cmd),
{
}

/// No command takes a well-formed machine to one that is not: the loop
/// stack stays within its depth, the volume within its range, and no
/// register turns negative.
pub proof fn lemma_apply_keeps_wf(m: Machine, v: int, cmd: Command, data: Seq<u8>, wrapped: bool)
    requires
        0 <= v < 4,
        m.wf(),
        in_format(cmd),
    ensures
        apply(m, v, cmd, data, wrapped) matches Ok((next, _)) ==> next.wf(),
{
    reveal(VoiceModel::wf);
    match cmd {
        Command::SetOctave { param } => {
            assert(param < 16 ==> (2u32 << (param as u32)) <= 65536) by (bit_vector);
        },
        _ => {},
    }
}

/// No fetch takes a well-formed machine to one that is not.
pub proof fn lemma_fetch_keeps_wf(m: Machine, v: int, data: Seq<u8>, wrapped: Seq<bool>, budget: nat)
    requires
        0 <= v < 4,
        m.wf(),
    ensures
        fetched_machine(fetch(m, v, data, wrapped, budget)).wf(),
    decreases budget,
{
    if budget > 0 {
        lemma_decode_in_format(data, m.voices[v].cursor);
        match decode(data, m.voices[v].cursor) {
            Err(_) => {},
            Ok(cmd) => {
                lemma_apply_keeps_wf(m, v, cmd, data, wrapped[v]);
                match apply(m, v, cmd, data, wrapped[v]) {
                    Err(_) => {},
                    Ok((next, flow)) => {
                        match flow {
                            Flow::Next => {
                                lemma_fetch_keeps_wf(next, v, data, wrapped, (budget - 1) as nat);
                            },
                            Flow::Wrapped => {
                                lemma_fetch_keeps_wf(
                                    next,
                                    v,
                                    data,
                                    wrapped.update(v, true),
                                    (budget - 1) as nat,
                                );
                            },
                            _ => {},
                        }
                    },
                }
            },
        }
    }
}

/// No processing pass takes a well-formed machine to one that is not.
pub proof fn lemma_pass_keeps_wf(m: Machine, data: Seq<u8>, v: int, wrapped: Seq<bool>)
    requires
        0 <= v <= 4,
        m.wf(),
    ensures
        passed_machine(pass(m, data, v, wrapped)).wf(),
    decreases 4 - v,
{
    if v < 4 {
        if m.voices[v].remaining_ticks != 0 {
            let waited = m.with_voice(v, m.voices[v].wait());
            assert(waited.wf()) by {
                reveal(VoiceModel::wf);
            }
            lemma_pass_keeps_wf(waited, data, v + 1, wrapped);
        } else {
            lemma_fetch_keeps_wf(m, v, data, wrapped, MAX_COMMANDS_PER_FETCH as nat);
            match fetch(m, v, data, wrapped, MAX_COMMANDS_PER_FETCH as nat) {
                Fetched::Settled(next, flags) => {
                    lemma_pass_keeps_wf(next, data, v + 1, flags);
                },
                _ => {},
            }
        }
    }
}

/// No audio tick takes a well-formed machine to one that is not.
pub proof fn lemma_audio_tick_keeps_wf(m: Machine)
    requires
        m.wf(),
    ensures
        m.audio_tick().wf(),
{
    reveal(VoiceModel::wf);
    let byte: u8 = SAMPLES[m.sampler.byte_index];
    let shift: u8 = m.sampler.bit_index as u8;
    assert(((byte >> shift) & 1u8) <= 1) by (bit_vector);
}

/// Playback never leaves the well-formed machines.
pub proof fn lemma_run_keeps_wf(m: Machine, data: Seq<u8>, limit: nat, output: Seq<u8>)
    requires
        m.wf(),
    ensures
        run(m, data, limit, output).machine.wf(),
    decreases limit - output.len(),
{
    if output.len() < limit {
        let ticked = m.audio_tick();
        lemma_audio_tick_keeps_wf(m);
        if limit - output.len() > 4 {
            let produced = output + ticked.frame();
            if ticked.tick_countdown != 0 {
                lemma_run_keeps_wf(
                    Machine { tick_countdown: ticked.tick_countdown - 1, ..ticked },
                    data,
                    limit,
                    produced,
                );
            } else {
                let armed = Machine { tick_countdown: ticked.tick_period, ..ticked };
                lemma_pass_keeps_wf(armed, data, 0, none_wrapped());
                match pass(armed, data, 0, none_wrapped()) {
                    Passed::Continue(next) => {
                        lemma_run_keeps_wf(next, data, limit, produced);
                    },
                    _ => {},
                }
            }
        }
    }
}

/// However a rendering ends, it leaves a well-formed machine: four
/// voices, none with more than five open loops, a volume above 15 or ticks
/// below zero, and a sampler whose cursor lies within the percussion
/// table.
pub proof fn law_render_is_well_formed(data: Seq<u8>, mutes: Seq<bool>, limit: nat)
    ensures
        render(data, mutes, limit).machine.wf(),
{
    reveal(VoiceModel::wf);
    if data.len() >= HEADER_LEN {
        lemma_run_keeps_wf(
            Machine::start(data, mutes),
            data,
            effective_limit(limit),
            Seq::<u8>::empty(),
        );
    }
}

/// Whether each sample of `output` is one of the two levels of a one-bit
/// voice: silence, or the amplitude above it.
pub open spec fn one_bit(output: Seq<u8>) -> bool {
    forall|i: int|
        0 <= i < output.len() ==> #[trigger] output[i] == DC_OFFSET || output[i] == DC_OFFSET
            + AMPLITUDE
}

/// Playback adds whole frames of one-bit samples: but for a cut at the
/// limit, the output grows by four samples at a time.
pub proof fn lemma_run_frames(m: Machine, data: Seq<u8>, limit: nat, output: Seq<u8>)
    requires
        m.wf(),
        one_bit(output),
        output.len() % 4 == 0,
    ensures
        one_bit(run(m, data, limit, output).output),
        run(m, data, limit, output).status != Status::Truncated ==> run(
            m,
            data,
            limit,
            output,
        ).output.len() % 4 == 0,
    decreases limit - output.len(),
{
    if output.len() < limit {
        let room = limit - output.len();
        let ticked = m.audio_tick();
        lemma_audio_tick_keeps_wf(m);
        let frame = ticked.frame();
        assert forall|k: int| 0 <= k < 4 implies #[trigger] frame[k] == DC_OFFSET || frame[k]
            == DC_OFFSET + AMPLITUDE by {
            reveal(VoiceModel::wf);
        }
        if room <= 4 {
            let cut = output + frame.take(room);
            assert forall|i: int| 0 <= i < cut.len() implies #[trigger] cut[i] == DC_OFFSET
                || cut[i] == DC_OFFSET + AMPLITUDE by {
                if i >= output.len() {
                    assert(cut[i] == frame[i - output.len()]);
                } else {
                    assert(cut[i] == output[i]);
                }
            }
        } else {
            let produced = output + frame;
            assert forall|i: int| 0 <= i < produced.len() implies #[trigger] produced[i]
                == DC_OFFSET || produced[i] == DC_OFFSET + AMPLITUDE by {
                if i >= output.len() {
                    assert(produced[i] == frame[i - output.len()]);
                } else {
                    assert(produced[i] == output[i]);
                }
            }
            if ticked.tick_countdown != 0 {
                lemma_run_frames(
                    Machine { tick_countdown: ticked.tick_countdown - 1, ..ticked },
                    data,
                    limit,
                    produced,
                );
            } else {
                let armed = Machine { tick_countdown: ticked.tick_period, ..ticked };
                lemma_pass_keeps_wf(armed, data, 0, none_wrapped());
                match pass(armed, data, 0, none_wrapped()) {
                    Passed::Continue(next) => {
                        lemma_run_frames(next, data, limit, produced);
                    },
                    _ => {},
                }
            }
        }
    }
}

/// A rendering is one-bit audio, four voices interleaved: each sample is
/// the silence level or the amplitude above it, and unless the rendering
/// was cut at its limit it holds a whole number of frames of four samples.
pub proof fn law_samples_are_one_bit(data: Seq<u8>, mutes: Seq<bool>, limit: nat)
    ensures
        one_bit(render(data, mutes, limit).output),
        render(data, mutes, limit).status != Status::Truncated ==> render(
            data,
            mutes,
            limit,
        ).output.len() % 4 == 0,
{
    if data.len() >= HEADER_LEN {
        assert(Machine::start(data, mutes).wf()) by {
            reveal(VoiceModel::wf);
        }
        lemma_run_frames(
            Machine::start(data, mutes),
            data,
            effective_limit(limit),
            Seq::<u8>::empty(),
        );
    }
}

/// The machine `m` with the mute flags `mutes` in place of its own.
pub open spec fn with_mutes(m: Machine, mutes: Seq<bool>) -> Machine {
    Machine {
        voices: Seq::new(m.voices.len(), |v: int| VoiceModel { muted: mutes[v], ..m.voices[v] }),
        ..m
    }
}

/// The output `output` with silence in place of the samples of the
/// voices that `mutes` mutes.
pub open spec fn masked(output: Seq<u8>, mutes: Seq<bool>) -> Seq<u8> {
    Seq::new(
        output.len(),
        |i: int|
            if mutes[i % 4] {
                DC_OFFSET
            } else {
                output[i]
            },
    )
}

/// What a voice executes does not depend on the mute flags.
pub proof fn lemma_apply_ignores_mutes(
    m: Machine,
    v: int,
    cmd: Command,
    data: Seq<u8>,
    wrapped: bool,
    mutes: Seq<bool>,
)
    requires
        0 <= v < 4,
        m.voices.len() == 4,
    ensures
        apply(with_mutes(m, mutes), v, cmd, data, wrapped) == match apply(
            m,
            v,
            cmd,
            data,
            wrapped,
        ) {
            Ok((next, flow)) => Ok::<(Machine, Flow), SynthError>((with_mutes(next, mutes), flow)),
            Err(e) => Err::<(Machine, Flow), SynthError>(e),
        },
{
    lemma_apply_keeps_mutes(m, v, cmd, data, wrapped);
    match apply(m, v, cmd, data, wrapped) {
        Ok((next, flow)) => {
            match apply(with_mutes(m, mutes), v, cmd, data, wrapped) {
                Ok((other, _)) => {
                    assert(other.voices =~= with_mutes(next, mutes).voices);
                    assert(other =~= with_mutes(next, mutes));
                },
                Err(_) => {},
            }
        },
        Err(_) => {},
    }
}

/// The result of `fetch` with the mute flags `mutes` in place of those of
/// its machine.
pub open spec fn fetched_with_mutes(fetched: Fetched, mutes: Seq<bool>) -> Fetched {
    match fetched {
        Fetched::Settled(m, flags) => Fetched::Settled(with_mutes(m, mutes), flags),
        Fetched::Finished(m) => Fetched::Finished(with_mutes(m, mutes)),
        Fetched::Failed(m, e) => Fetched::Failed(with_mutes(m, mutes), e),
    }
}

/// The result of `pass` with the mute flags `mutes` in place of those of
/// its machine.
pub open spec fn passed_with_mutes(passed: Passed, mutes: Seq<bool>) -> Passed {
    match passed {
        Passed::Continue(m) => Passed::Continue(with_mutes(m, mutes)),
        Passed::Finished(m) => Passed::Finished(with_mutes(m, mutes)),
        Passed::Failed(m, e) => Passed::Failed(with_mutes(m, mutes), e),
    }
}

/// What a voice fetches does not depend on the mute flags.
pub proof fn lemma_fetch_ignores_mutes(
    m: Machine,
    v: int,
    data: Seq<u8>,
    wrapped: Seq<bool>,
    budget: nat,
    mutes: Seq<bool>,
)
    requires
        0 <= v < 4,
        m.voices.len() == 4,
    ensures
        fetch(with_mutes(m, mutes), v, data, wrapped, budget) == fetched_with_mutes(
            fetch(m, v, data, wrapped, budget),
            mutes,
        ),
    decreases budget,
{
    if budget > 0 {
        match decode(data, m.voices[v].cursor) {
            Err(_) => {},
            Ok(cmd) => {
                lemma_apply_ignores_mutes(m, v, cmd, data, wrapped[v], mutes);
                lemma_apply_keeps_mutes(m, v, cmd, data, wrapped[v]);
                match apply(m, v, cmd, data, wrapped[v]) {
                    Err(_) => {},
                    Ok((next, flow)) => {
                        match flow {
                            Flow::Next => {
                                lemma_fetch_ignores_mutes(
                                    next,
                                    v,
                                    data,
                                    wrapped,
                                    (budget - 1) as nat,
                                    mutes,
                                );
                            },
                            Flow::Wrapped => {
                                lemma_fetch_ignores_mutes(
                                    next,
                                    v,
                                    data,
                                    wrapped.update(v, true),
                                    (budget - 1) as nat,
                                    mutes,
                                );
                            },
                            _ => {},
                        }
                    },
                }
            },
        }
    }
}

/// What a processing pass does does not depend on the mute flags.
pub proof fn lemma_pass_ignores_mutes(
    m: Machine,
    data: Seq<u8>,
    v: int,
    wrapped: Seq<bool>,
    mutes: Seq<bool>,
)
    requires
        0 <= v <= 4,
        m.voices.len() == 4,
    ensures
        pass(with_mutes(m, mutes), data, v, wrapped) == passed_with_mutes(
            pass(m, data, v, wrapped),
            mutes,
        ),
    decreases 4 - v,
{
    if v < 4 {
        if m.voices[v].remaining_ticks != 0 {
            let waited = m.with_voice(v, m.voices[v].wait());
            let other = with_mutes(m, mutes).with_voice(v, with_mutes(m, mutes).voices[v].wait());
            assert(other.voices =~= with_mutes(waited, mutes).voices);
            assert(other =~= with_mutes(waited, mutes));
            lemma_pass_ignores_mutes(waited, data, v + 1, wrapped, mutes);
        } else {
            lemma_fetch_ignores_mutes(m, v, data, wrapped, MAX_COMMANDS_PER_FETCH as nat, mutes);
            lemma_fetch_keeps_mutes(m, v, data, wrapped, MAX_COMMANDS_PER_FETCH as nat);
            match fetch(m, v, data, wrapped, MAX_COMMANDS_PER_FETCH as nat) {
                Fetched::Settled(next, flags) => {
                    lemma_pass_ignores_mutes(next, data, v + 1, flags, mutes);
                },
                _ => {},
            }
        }
    }
}

/// Playback with mute flags is playback without, masked.
pub proof fn lemma_run_masks(
    m: Machine,
    data: Seq<u8>,
    limit: nat,
    output: Seq<u8>,
    mutes: Seq<bool>,
)
    requires
        m.voices.len() == 4,
        m.mutes() == none_muted(),
        mutes.len() == 4,
        output.len() % 4 == 0,
    ensures
        run(with_mutes(m, mutes), data, limit, masked(output, mutes)) == (Outcome {
            machine: with_mutes(run(m, data, limit, output).machine, mutes),
            output: masked(run(m, data, limit, output).output, mutes),
            status: run(m, data, limit, output).status,
        }),
    decreases limit - output.len(),
{
    let muted = with_mutes(m, mutes);
    let quiet = masked(output, mutes);
    if output.len() < limit {
        let room = limit - output.len();
        let ticked = m.audio_tick();
        let other = muted.audio_tick();
        assert(other.voices =~= with_mutes(ticked, mutes).voices);
        assert(other =~= with_mutes(ticked, mutes));
        assert(ticked.mutes() =~= m.mutes());
        assert forall|k: int| 0 <= k < 4 implies #[trigger] other.frame()[k] == (if mutes[k] {
            DC_OFFSET
        } else {
            ticked.frame()[k]
        }) by {
            assert(ticked.mutes()[k] == ticked.voices[k].muted);
        }
        if room <= 4 {
            assert(quiet + other.frame().take(room) =~= masked(
                output + ticked.frame().take(room),
                mutes,
            ));
        } else {
            let produced = output + ticked.frame();
            assert(quiet + other.frame() =~= masked(produced, mutes));
            if ticked.tick_countdown != 0 {
                let next = Machine { tick_countdown: ticked.tick_countdown - 1, ..ticked };
                assert(next.mutes() =~= m.mutes());
                assert((Machine { tick_countdown: other.tick_countdown - 1, ..other }) =~= with_mutes(
                    next,
                    mutes,
                ));
                lemma_run_masks(next, data, limit, produced, mutes);
            } else {
                let armed = Machine { tick_countdown: ticked.tick_period, ..ticked };
                assert(armed.mutes() =~= m.mutes());
                assert((Machine { tick_countdown: other.tick_period, ..other }) =~= with_mutes(
                    armed,
                    mutes,
                ));
                lemma_pass_ignores_mutes(armed, data, 0, none_wrapped(), mutes);
                lemma_pass_keeps_mutes(armed, data, 0, none_wrapped());
                match pass(armed, data, 0, none_wrapped()) {
                    Passed::Continue(next) => {
                        lemma_run_masks(next, data, limit, produced, mutes);
                    },
                    _ => {},
                }
            }
        }
    }
}

/// The mute flags act on the samples and on nothing else: a rendering
/// with mute flags is the rendering without any, with silence in place of
/// the samples of the muted voices. It ends the same way, and leaves the
/// same machine but for the flags.
pub proof fn law_muting_masks_the_output(data: Seq<u8>, mutes: Seq<bool>, limit: nat)
    requires
        mutes.len() == 4,
    ensures
        render(data, mutes, limit).output == masked(
            render(data, none_muted(), limit).output,
            mutes,
        ),
        render(data, mutes, limit).status == render(data, none_muted(), limit).status,
        render(data, mutes, limit).machine == with_mutes(
            render(data, none_muted(), limit).machine,
            mutes,
        ),
{
    let open = none_muted();
    if data.len() >= HEADER_LEN {
        let start = Machine::start(data, open);
        assert(start.mutes() =~= open);
        assert(with_mutes(start, mutes).voices =~= Machine::start(data, mutes).voices);
        assert(with_mutes(start, mutes) =~= Machine::start(data, mutes));
        assert(masked(Seq::<u8>::empty(), mutes) =~= Seq::<u8>::empty());
        lemma_run_masks(start, data, effective_limit(limit), Seq::<u8>::empty(), mutes);
    } else {
        assert(with_mutes(Machine::fresh(open), mutes).voices =~= Machine::fresh(mutes).voices);
        assert(with_mutes(Machine::fresh(open), mutes) =~= Machine::fresh(mutes));
        assert(masked(Seq::<u8>::empty(), mutes) =~= Seq::<u8>::empty());
    }
}

} // verus!
