//! The single-shot recording command: its state, and the timer that stops a
//! recording once the speaker has gone quiet (or after thirty seconds).
use vstd::prelude::*;

use crate::voice::record::{
    acquire_spec, release_capture, release_spec, try_acquire_capture, CaptureState, RecordingHandle,
    OWNER_NONE, OWNER_SINGLE_SHOT,
};
use crate::voice::wav::{i16_to_wav, pcm_bytes, wav_header};

verus! {

/// The recording in progress, and whether its auto-stop timer still runs.
pub struct RecordingState {
    pub handle: Option<RecordingHandle>,
    pub timeout_active: bool,
}

impl RecordingState {
    pub fn new() -> (s: RecordingState)
        ensures
            s.handle.is_none(),
            !s.timeout_active,
    {
        RecordingState { handle: None, timeout_active: false }
    }
}

/// The first step of starting a single-shot recording: nothing to do when a
/// recording is already stored (`Ok(false)`); otherwise the microphone is
/// taken for the single-shot recorder (`Ok(true)`), or refused as busy.
pub fn single_shot_reserve(state: &RecordingState, capture: &mut CaptureState) -> (r: Result<bool, String>)
    ensures
        state.handle.is_some() ==> r == Ok::<bool, String>(false) && *final(capture) == *old(capture),
        state.handle.is_none() ==> {
            let (c, a) = acquire_spec(*old(capture), OWNER_SINGLE_SHOT);
            &&& *final(capture) == c
            &&& match r {
                Ok(b) => b && a is Ok,
                Err(e) => a == Err::<(), Seq<char>>(e@),
            }
        },
{
    if state.handle.is_some() {
        return Ok(false);
    }
    match try_acquire_capture(capture, OWNER_SINGLE_SHOT) {
        Ok(()) => Ok(true),
        Err(e) => Err(e),
    }
}

/// The last step, once the recorder answered (`started`): when another
/// start stored a recording meanwhile, nothing changes (`Ok(false)`); a
/// failed start gives the microphone back and passes the error on; a
/// started recording is stored (`Ok(true)`) and the microphone stays taken.
pub fn single_shot_commit(
    state: &mut RecordingState,
    capture: &mut CaptureState,
    started: Result<RecordingHandle, String>,
) -> (r: Result<bool, String>)
    ensures
        old(state).handle.is_some() ==> r == Ok::<bool, String>(false) && *final(state) == *old(state)
            && *final(capture) == *old(capture),
        old(state).handle.is_none() ==> match started {
            Err(e) => r == Err::<bool, String>(e) && *final(state) == *old(state) && *final(capture)
                == release_spec(*old(capture), OWNER_SINGLE_SHOT),
            Ok(h) => r == Ok::<bool, String>(true) && final(state).handle == Some(h)
                && final(state).timeout_active == old(state).timeout_active && *final(capture) == *old(capture),
        },
{
    if state.handle.is_some() {
        return Ok(false);
    }
    match started {
        Err(e) => {
            release_capture(capture, OWNER_SINGLE_SHOT);
            Err(e)
        },
        Ok(h) => {
            state.handle = Some(h);
            Ok(true)
        },
    }
}

/// A single-shot start that reserved the microphone ends holding it when the
/// recorder started, and with the microphone free when it failed.
pub proof fn law_single_shot_owns_or_frees(c: CaptureState)
    requires
        acquire_spec(c, OWNER_SINGLE_SHOT).1 is Ok,
    ensures
        acquire_spec(c, OWNER_SINGLE_SHOT).0.owner == OWNER_SINGLE_SHOT,
        release_spec(acquire_spec(c, OWNER_SINGLE_SHOT).0, OWNER_SINGLE_SHOT).owner == OWNER_NONE,
{
}

/// A recording is cut after this long.
pub const MAX_RECORDING_SECS: u64 = 30;
/// The timer ticks this often.
pub const TICK_MS: u64 = 100;
/// Voice detection is asked at most this often.
pub const VAD_CHECK_MS: u64 = 500;
/// Below this input level (in thousandths), there is certainly no speech.
pub const LEVEL_GATE: u32 = 10;
/// Speech needed before silence may stop the recording.
pub const MIN_SPEECH_MS: u64 = 500;
/// Silence after speech that stops the recording.
pub const SILENCE_STOP_MS: u64 = 1500;
/// Ticks before the hard timeout.
pub const MAX_TICKS: u64 = 300;

pub struct VadTimer {
    pub heard_speech_ms: u64,
    pub silence_after_speech_ms: u64,
    pub since_vad_check_ms: u64,
    pub ticks: u64,
}

#[derive(Clone, Copy, PartialEq, Eq, Structural)]
pub enum TickOutcome {
    Continue,
    /// Ask the voice detector whether the last second holds speech.
    CheckVoice,
    /// Enough silence after speech: stop the recording.
    Stop,
}

impl VadTimer {
    pub fn new() -> (t: VadTimer)
        ensures
            t.heard_speech_ms == 0 && t.silence_after_speech_ms == 0 && t.since_vad_check_ms == 0 && t.ticks == 0,
    {
        VadTimer { heard_speech_ms: 0, silence_after_speech_ms: 0, since_vad_check_ms: 0, ticks: 0 }
    }
}

pub open spec fn sat(a: u64, b: u64) -> u64 {
    if a + b > u64::MAX {
        u64::MAX
    } else {
        (a + b) as u64
    }
}

/// The recording has run its full length.
pub fn vad_timer_expired(t: &VadTimer) -> (r: bool)
    ensures
        r == (t.ticks >= MAX_TICKS),
{
    t.ticks >= MAX_TICKS
}

pub open spec fn stop_due(t: VadTimer) -> bool {
    t.heard_speech_ms >= MIN_SPEECH_MS && t.silence_after_speech_ms >= SILENCE_STOP_MS
}

/// One tick of the auto-stop timer with the current input level (0..=1000).
/// Quiet input counts as silence once speech was heard; loud input asks the
/// voice detector every half second.
pub fn vad_tick(t: &mut VadTimer, level: u32) -> (r: TickOutcome)
    ensures
        final(t).ticks == sat(old(t).ticks, 1),
        level < LEVEL_GATE ==> {
            &&& final(t).since_vad_check_ms == sat(old(t).since_vad_check_ms, TICK_MS)
            &&& final(t).heard_speech_ms == old(t).heard_speech_ms
            &&& final(t).silence_after_speech_ms == if old(t).heard_speech_ms >= MIN_SPEECH_MS {
                sat(old(t).silence_after_speech_ms, TICK_MS)
            } else {
                old(t).silence_after_speech_ms
            }
            &&& r == if stop_due(*final(t)) { TickOutcome::Stop } else { TickOutcome::Continue }
        },
        level >= LEVEL_GATE ==> {
            &&& final(t).heard_speech_ms == old(t).heard_speech_ms
            &&& final(t).silence_after_speech_ms == old(t).silence_after_speech_ms
            &&& if sat(old(t).since_vad_check_ms, TICK_MS) >= VAD_CHECK_MS {
                final(t).since_vad_check_ms == 0 && r == TickOutcome::CheckVoice
            } else {
                final(t).since_vad_check_ms == sat(old(t).since_vad_check_ms, TICK_MS) && r
                    == TickOutcome::Continue
            }
        },
{
    t.ticks = t.ticks.saturating_add(1);
    t.since_vad_check_ms = t.since_vad_check_ms.saturating_add(TICK_MS);
    if level < LEVEL_GATE {
        if t.heard_speech_ms >= MIN_SPEECH_MS {
            t.silence_after_speech_ms = t.silence_after_speech_ms.saturating_add(TICK_MS);
        }
        if t.heard_speech_ms >= MIN_SPEECH_MS && t.silence_after_speech_ms >= SILENCE_STOP_MS {
            return TickOutcome::Stop;
        }
        return TickOutcome::Continue;
    }
    if t.since_vad_check_ms >= VAD_CHECK_MS {
        t.since_vad_check_ms = 0;
        TickOutcome::CheckVoice
    } else {
        TickOutcome::Continue
    }
}

/// The voice detector's answer: speech adds half a second of speech and
/// clears the silence; no speech (after speech was heard) adds half a second
/// of silence. Returns whether the recording is to stop.
pub fn vad_voice_result(t: &mut VadTimer, has_speech: bool) -> (stop: bool)
    ensures
        final(t).ticks == old(t).ticks,
        final(t).since_vad_check_ms == old(t).since_vad_check_ms,
        has_speech ==> final(t).heard_speech_ms == sat(old(t).heard_speech_ms, VAD_CHECK_MS)
            && final(t).silence_after_speech_ms == 0,
        !has_speech ==> final(t).heard_speech_ms == old(t).heard_speech_ms && final(t).silence_after_speech_ms
            == if old(t).heard_speech_ms >= MIN_SPEECH_MS {
            sat(old(t).silence_after_speech_ms, VAD_CHECK_MS)
        } else {
            old(t).silence_after_speech_ms
        },
        stop == stop_due(*final(t)),
{
    if has_speech {
        t.heard_speech_ms = t.heard_speech_ms.saturating_add(VAD_CHECK_MS);
        t.silence_after_speech_ms = 0;
    } else if t.heard_speech_ms >= MIN_SPEECH_MS {
        t.silence_after_speech_ms = t.silence_after_speech_ms.saturating_add(VAD_CHECK_MS);
    }
    t.heard_speech_ms >= MIN_SPEECH_MS && t.silence_after_speech_ms >= SILENCE_STOP_MS
}

/// Silence alone never stops a recording before half a second of speech was
/// heard.
pub proof fn law_no_stop_without_speech(t: VadTimer)
    requires
        t.heard_speech_ms < MIN_SPEECH_MS,
    ensures
        !stop_due(t),
{
}


/// Less than this much audio (0.2 s at 16 kHz) is not worth a voice check.
pub const MIN_VAD_SAMPLES: usize = 3200;

/// The WAV file a voice check sends for recent `samples`, or nothing when
/// they are too few to judge (which counts as no speech).
pub fn vad_check_wav(samples: &[i16], sample_rate: u32) -> (r: Option<Vec<u8>>)
    requires
        36 + 2 * samples@.len() <= u32::MAX,
        2 * sample_rate <= u32::MAX,
    ensures
        samples@.len() < MIN_VAD_SAMPLES ==> r is None,
        samples@.len() >= MIN_VAD_SAMPLES ==> (r matches Some(w) && w@ == wav_header(samples@.len() as int, sample_rate)
            + pcm_bytes(samples@)),
{
    if samples.len() < MIN_VAD_SAMPLES {
        return None;
    }
    Some(i16_to_wav(samples, sample_rate))
}

} // verus!
