//! Wake-word listening: an energy gate decides which stretches of microphone
//! audio are worth sending to the speech server, which answers whether the
//! enrolled speaker said the wake phrase.
//!
//! The worker feeds `wake_step` with what it received (an audio chunk, a
//! timeout, or the pause flag being set) and sends what comes back; the
//! server's answer goes through `wake_check_outcome`.
use vstd::prelude::*;

use crate::text::{append_chars, chars_of, string_of};
use crate::voice::audio::{downmix_to_mono, mono_of};
use crate::voice::conversation::{chunk_ms_of, sat_add};
use crate::voice::record::last_n;
use crate::settings::{base64_decode, decode_error_text, standard_base64_decode};

verus! {

pub const TARGET_SR: u32 = 16000;
pub const DETECTION_COOLDOWN_MS: u64 = 1500;
pub const MIN_SPEECH_BEFORE_BUFFER_MS: u64 = 200;
/// Half a second at the target rate, kept so that the start of speech is not lost.
pub const LOOKBACK_SAMPLES: usize = 8000;
/// Three seconds at the target rate: the longest stretch sent at once.
pub const MAX_BUFFER_SAMPLES: usize = 48000;
/// 0.8 s at the target rate: shorter stretches are not worth a check.
pub const MIN_SEND_SAMPLES: usize = 12800;
pub const SPEECH_END_SILENCE_MS: u64 = 1500;

/// Whether a listener runs and whether it is paused (while another recording
/// uses the microphone).
pub struct WakeFlags {
    pub active: bool,
    pub paused: bool,
}

pub fn is_wake_active(f: &WakeFlags) -> (r: bool)
    ensures
        r == f.active,
{
    f.active
}

pub fn pause_wake(f: &mut WakeFlags)
    ensures
        *final(f) == (WakeFlags { paused: true, ..*old(f) }),
{
    f.paused = true;
}

pub fn resume_wake(f: &mut WakeFlags)
    ensures
        *final(f) == (WakeFlags { paused: false, ..*old(f) }),
{
    f.paused = false;
}

/// Starting a listener: refused while one runs; refused without an enrolled
/// voiceprint (any speaker's) only when speaker verification is on, so that
/// the wake phrase alone can be listened for. A refusal leaves the flags as
/// they were.
pub open spec fn begin_listener_spec(f: WakeFlags, verify_speaker: bool, has_voiceprint: bool) -> (WakeFlags, Result<(), Seq<char>>) {
    if f.active {
        (f, Err("wake listener already active"@))
    } else if verify_speaker && !has_voiceprint {
        (f, Err("No enrolled voiceprint. Record a wake word first."@))
    } else {
        (WakeFlags { active: true, ..f }, Ok(()))
    }
}

pub open spec fn unit_result_view(r: Result<(), String>) -> Result<(), Seq<char>> {
    match r {
        Ok(()) => Ok(()),
        Err(e) => Err(e@),
    }
}

pub fn begin_wake_listener(f: &mut WakeFlags, verify_speaker: bool, has_voiceprint: bool) -> (r: Result<(), String>)
    ensures
        (*final(f), unit_result_view(r)) == begin_listener_spec(*old(f), verify_speaker, has_voiceprint),
{
    if f.active {
        return Err(string_of(&chars_of("wake listener already active")));
    }
    if verify_speaker && !has_voiceprint {
        return Err(string_of(&chars_of("No enrolled voiceprint. Record a wake word first.")));
    }
    f.active = true;
    Ok(())
}

/// The microphone could not be opened: the listener is not running, and the
/// error reads `mic capture: <reason>`.
pub fn wake_capture_failed(f: &mut WakeFlags, reason: &str) -> (e: String)
    ensures
        *final(f) == (WakeFlags { active: false, ..*old(f) }),
        e@ == "mic capture: "@ + reason@,
{
    f.active = false;
    let mut m = chars_of("mic capture: ");
    append_chars(&mut m, &chars_of(reason));
    string_of(&m)
}

/// The worker thread could not be spawned: the listener is not running, and
/// the error reads `worker spawn: <reason>`.
pub fn wake_spawn_failed(f: &mut WakeFlags, reason: &str) -> (e: String)
    ensures
        *final(f) == (WakeFlags { active: false, ..*old(f) }),
        e@ == "worker spawn: "@ + reason@,
{
    f.active = false;
    let mut m = chars_of("worker spawn: ");
    append_chars(&mut m, &chars_of(reason));
    string_of(&m)
}

/// The worker ended: nothing runs and nothing is paused.
pub fn wake_worker_exited(f: &mut WakeFlags)
    ensures
        *final(f) == (WakeFlags { active: false, paused: false }),
{
    f.active = false;
    f.paused = false;
}

/// Where the energy of a chunk stands against the listener's thresholds.
#[derive(Clone, Copy)]
pub struct WakeLevels {
    /// Above the threshold that starts speech.
    pub above_speech: bool,
    /// Below the threshold that ends a burst of speech.
    pub below_release: bool,
    /// Quiet enough to feed the noise-floor estimate.
    pub quiet_for_noise_floor: bool,
}

/// What the worker receives.
pub enum WakeEvent {
    /// The listener is paused; whatever arrived is dropped.
    Paused,
    /// Interleaved samples from the device, the same audio already mixed down
    /// and resampled to the target rate, and its levels.
    Chunk { raw: Vec<i16>, channels: u16, sample_rate: u32, resampled: Vec<i16>, levels: WakeLevels },
    /// Nothing arrived within the read timeout.
    Timeout,
}

pub enum WakeEventModel {
    Paused,
    Chunk { raw: Seq<i16>, channels: u16, sample_rate: u32, resampled: Seq<i16>, levels: WakeLevels },
    Timeout,
}

impl View for WakeEvent {
    type V = WakeEventModel;

    open spec fn view(&self) -> WakeEventModel {
        match self {
            WakeEvent::Paused => WakeEventModel::Paused,
            WakeEvent::Chunk { raw, channels, sample_rate, resampled, levels } => WakeEventModel::Chunk {
                raw: raw@,
                channels: *channels,
                sample_rate: *sample_rate,
                resampled: resampled@,
                levels: *levels,
            },
            WakeEvent::Timeout => WakeEventModel::Timeout,
        }
    }
}

/// The energy gate's state between two events.
pub struct WakeDetector {
    /// Audio collected since speech was confirmed.
    pub audio_buf: Vec<i16>,
    /// The most recent audio, at most `LOOKBACK_SAMPLES` of it, oldest first.
    pub pre_buf: Vec<i16>,
    pub in_speech_burst: bool,
    pub is_buffering: bool,
    pub speech_run_ms: u64,
    pub silence_run_ms: u64,
    /// When the wake phrase last triggered (milliseconds on a monotonic clock).
    pub last_detection_ms: Option<u64>,
}

pub struct WakeModel {
    pub audio_buf: Seq<i16>,
    pub pre_buf: Seq<i16>,
    pub in_speech_burst: bool,
    pub is_buffering: bool,
    pub speech_run_ms: u64,
    pub silence_run_ms: u64,
    pub last_detection_ms: Option<u64>,
}

impl View for WakeDetector {
    type V = WakeModel;

    open spec fn view(&self) -> WakeModel {
        WakeModel {
            audio_buf: self.audio_buf@,
            pre_buf: self.pre_buf@,
            in_speech_burst: self.in_speech_burst,
            is_buffering: self.is_buffering,
            speech_run_ms: self.speech_run_ms,
            silence_run_ms: self.silence_run_ms,
            last_detection_ms: self.last_detection_ms,
        }
    }
}

/// The lookback never holds more than half a second, and audio is only
/// collected while buffering.
pub open spec fn wake_wf(m: WakeModel) -> bool {
    &&& m.pre_buf.len() <= LOOKBACK_SAMPLES
    &&& m.audio_buf.len() > 0 ==> m.is_buffering
}

/// The audio to check, when there is some to send.
pub enum WakeAction {
    Nothing,
    /// Send these 16 kHz mono samples to the wake check.
    Check(Vec<i16>),
}

impl View for WakeAction {
    type V = Option<Seq<i16>>;

    open spec fn view(&self) -> Option<Seq<i16>> {
        match self {
            WakeAction::Nothing => None,
            WakeAction::Check(v) => Some(v@),
        }
    }
}

/// Everything goes back to silence: paused, or a stretch was sent or dropped.
pub open spec fn reset_all(m: WakeModel) -> WakeModel {
    WakeModel {
        audio_buf: Seq::empty(),
        pre_buf: Seq::empty(),
        is_buffering: false,
        in_speech_burst: false,
        speech_run_ms: 0,
        silence_run_ms: 0,
        ..m
    }
}

/// One chunk of audio: the energy gate, the lookback, the collected audio,
/// and whether a stretch is complete (full, or followed by enough silence).
pub open spec fn chunk_spec(m: WakeModel, mono_len: nat, sample_rate: u32, resampled: Seq<i16>, levels: WakeLevels) -> (WakeModel, Option<Seq<i16>>) {
    let chunk_ms = chunk_ms_of(mono_len, sample_rate);
    let burst = if levels.above_speech {
        true
    } else if levels.below_release {
        false
    } else {
        m.in_speech_burst
    };
    let speech_run = if burst { sat_add(m.speech_run_ms, chunk_ms) } else { 0u64 };
    let silence_run = if burst {
        0u64
    } else if m.is_buffering {
        sat_add(m.silence_run_ms, chunk_ms)
    } else {
        m.silence_run_ms
    };
    let starts = burst && speech_run >= MIN_SPEECH_BEFORE_BUFFER_MS && !m.is_buffering;
    let buffering = m.is_buffering || starts;
    let collected = if starts { m.audio_buf + m.pre_buf } else { m.audio_buf };
    let collected = if buffering { collected + resampled } else { collected };
    let pre = last_n(m.pre_buf + resampled, LOOKBACK_SAMPLES as int);
    let full = collected.len() >= MAX_BUFFER_SAMPLES;
    let ended = buffering && !burst && silence_run >= SPEECH_END_SILENCE_MS;
    let enough = collected.len() >= MIN_SEND_SAMPLES;
    let m1 = WakeModel {
        audio_buf: collected,
        pre_buf: pre,
        in_speech_burst: burst,
        is_buffering: buffering,
        speech_run_ms: speech_run,
        silence_run_ms: silence_run,
        ..m
    };
    if (full || ended) && enough {
        (
            WakeModel { audio_buf: Seq::empty(), pre_buf: Seq::empty(), is_buffering: false, silence_run_ms: 0, ..m1 },
            Some(collected),
        )
    } else if ended {
        (WakeModel { audio_buf: Seq::empty(), pre_buf: Seq::empty(), is_buffering: false, silence_run_ms: 0, ..m1 }, None)
    } else {
        (m1, None)
    }
}

/// Nothing arrived: what was collected is sent as it is, and the runs restart.
pub open spec fn timeout_spec(m: WakeModel) -> (WakeModel, Option<Seq<i16>>) {
    let m1 = WakeModel { is_buffering: false, silence_run_ms: 0, speech_run_ms: 0, ..m };
    if m.is_buffering && m.audio_buf.len() > 0 {
        (WakeModel { audio_buf: Seq::empty(), ..m1 }, Some(m.audio_buf))
    } else {
        (m1, None)
    }
}

pub open spec fn wake_step_spec(m: WakeModel, ev: WakeEventModel) -> (WakeModel, Option<Seq<i16>>) {
    match ev {
        WakeEventModel::Paused => (reset_all(m), None),
        WakeEventModel::Chunk { raw, channels, sample_rate, resampled, levels } => chunk_spec(
            m,
            mono_of(raw, channels).len(),
            sample_rate,
            resampled,
            levels,
        ),
        WakeEventModel::Timeout => timeout_spec(m),
    }
}

/// Whether the noise-floor estimate learns from a chunk: a quiet chunk while
/// no speech is going on and nothing is being collected.
pub open spec fn feeds_noise_floor(before: WakeModel, after: WakeModel, levels: WakeLevels) -> bool {
    !after.in_speech_burst && !before.is_buffering && levels.quiet_for_noise_floor
}

impl WakeDetector {
    /// A detector that has heard nothing; the first match may trigger at once.
    pub fn new() -> (d: WakeDetector)
        ensures
            d@ == (WakeModel {
                audio_buf: Seq::empty(),
                pre_buf: Seq::empty(),
                in_speech_burst: false,
                is_buffering: false,
                speech_run_ms: 0,
                silence_run_ms: 0,
                last_detection_ms: None,
            }),
            wake_wf(d@),
    {
        WakeDetector {
            audio_buf: Vec::new(),
            pre_buf: Vec::new(),
            in_speech_burst: false,
            is_buffering: false,
            speech_run_ms: 0,
            silence_run_ms: 0,
            last_detection_ms: None,
        }
    }
}

fn append_samples(a: &mut Vec<i16>, b: &Vec<i16>)
    ensures
        final(a)@ == old(a)@ + b@,
{
    let mut i: usize = 0;
    while i < b.len()
        invariant
            i <= b.len(),
            a@ == old(a)@ + b@.take(i as int),
        decreases b.len() - i,
    {
        a.push(b[i]);
        assert(b@.take(i as int + 1) == b@.take(i as int).push(b@[i as int]));
        i += 1;
    }
    assert(b@.take(b.len() as int) == b@);
}

/// The last `n` samples of `a` followed by `b`.
fn last_n_of_concat(a: &Vec<i16>, b: &Vec<i16>, n: usize) -> (r: Vec<i16>)
    ensures
        r@ == last_n(a@ + b@, n as int),
{
    let mut all: Vec<i16> = Vec::new();
    append_samples(&mut all, a);
    append_samples(&mut all, b);
    assert(Seq::<i16>::empty() + a@ == a@);
    let len = all.len();
    if len <= n {
        return all;
    }
    let from = len - n;
    let mut r: Vec<i16> = Vec::new();
    let mut i = from;
    while i < len
        invariant
            from <= i <= len,
            len == all.len(),
            r@ == all@.subrange(from as int, i as int),
        decreases len - i,
    {
        r.push(all[i]);
        assert(all@.subrange(from as int, i + 1) == all@.subrange(from as int, i as int).push(all@[i as int]));
        i += 1;
    }
    assert(all@.skip(from as int) == all@.subrange(from as int, len as int));
    r
}

/// Handles one event of the wake worker; see `wake_step_spec`. The second
/// result says whether the chunk's level goes into the noise floor.
pub fn wake_step(d: &mut WakeDetector, ev: WakeEvent) -> (r: (WakeAction, bool))
    requires
        wake_wf(old(d)@),
        ev@ matches WakeEventModel::Chunk { raw, .. } ==> raw.len() * 1000 <= u64::MAX,
    ensures
        (final(d)@, r.0@) == wake_step_spec(old(d)@, ev@),
        wake_wf(final(d)@),
        r.1 == (ev@ matches WakeEventModel::Chunk { levels, .. } && feeds_noise_floor(old(d)@, final(d)@, levels)),
{
    match ev {
        WakeEvent::Paused => {
            d.audio_buf = Vec::new();
            d.pre_buf = Vec::new();
            d.is_buffering = false;
            d.in_speech_burst = false;
            d.speech_run_ms = 0;
            d.silence_run_ms = 0;
            (WakeAction::Nothing, false)
        },
        WakeEvent::Timeout => {
            let send = d.is_buffering && d.audio_buf.len() > 0;
            d.is_buffering = false;
            d.silence_run_ms = 0;
            d.speech_run_ms = 0;
            if send {
                let mut out: Vec<i16> = Vec::new();
                std::mem::swap(&mut out, &mut d.audio_buf);
                (WakeAction::Check(out), false)
            } else {
                (WakeAction::Nothing, false)
            }
        },
        WakeEvent::Chunk { raw, channels, sample_rate, resampled, levels } => {
            let ghost m = d@;
            let mono = downmix_to_mono(&raw, channels);
            proof {
                if channels > 1 {
                    assert(mono@.len() <= raw@.len()) by (nonlinear_arith)
                        requires
                            mono@.len() == raw@.len() as int / channels as int,
                            channels > 1,
                    ;
                }
            }
            let rate: u64 = if sample_rate == 0 { 1 } else { sample_rate as u64 };
            let chunk_ms = (mono.len() as u64 * 1000) / rate;
            assert(chunk_ms == chunk_ms_of(mono@.len(), sample_rate));
            if levels.above_speech {
                d.in_speech_burst = true;
            } else if levels.below_release {
                d.in_speech_burst = false;
            }
            let was_buffering = d.is_buffering;
            if d.in_speech_burst {
                d.speech_run_ms = d.speech_run_ms.saturating_add(chunk_ms);
                d.silence_run_ms = 0;
                if d.speech_run_ms >= MIN_SPEECH_BEFORE_BUFFER_MS && !d.is_buffering {
                    d.is_buffering = true;
                    let pre = d.pre_buf.clone();
                    append_samples(&mut d.audio_buf, &pre);
                }
            } else {
                if d.is_buffering {
                    d.silence_run_ms = d.silence_run_ms.saturating_add(chunk_ms);
                }
                d.speech_run_ms = 0;
            }
            let feed = !d.in_speech_burst && !was_buffering && levels.quiet_for_noise_floor;
            d.pre_buf = last_n_of_concat(&d.pre_buf, &resampled, LOOKBACK_SAMPLES);
            if d.is_buffering {
                append_samples(&mut d.audio_buf, &resampled);
            }
            let full = d.audio_buf.len() >= MAX_BUFFER_SAMPLES;
            let ended = d.is_buffering && !d.in_speech_burst && d.silence_run_ms >= SPEECH_END_SILENCE_MS;
            let enough = d.audio_buf.len() >= MIN_SEND_SAMPLES;
            if (full || ended) && enough {
                let mut out: Vec<i16> = Vec::new();
                std::mem::swap(&mut out, &mut d.audio_buf);
                d.pre_buf = Vec::new();
                d.is_buffering = false;
                d.silence_run_ms = 0;
                (WakeAction::Check(out), feed)
            } else if ended {
                d.audio_buf = Vec::new();
                d.pre_buf = Vec::new();
                d.is_buffering = false;
                d.silence_run_ms = 0;
                (WakeAction::Nothing, feed)
            } else {
                (WakeAction::Nothing, feed)
            }
        },
    }
}

/// The server's answer to a check made at `now_ms`: the wake phrase
/// triggers when the phrase matches, and the speaker too when speaker
/// verification is on, and the last trigger is at least the cooldown ago.
pub open spec fn check_outcome_spec(last: Option<u64>, verify_speaker: bool, speaker_match: bool, keyword_match: bool, now_ms: u64) -> bool {
    keyword_match && (!verify_speaker || speaker_match) && match last {
        None => true,
        Some(t) => now_ms < t || now_ms - t >= DETECTION_COOLDOWN_MS,
    }
}

pub fn wake_check_outcome(d: &mut WakeDetector, verify_speaker: bool, speaker_match: bool, keyword_match: bool, now_ms: u64) -> (trigger: bool)
    ensures
        trigger == check_outcome_spec(old(d).last_detection_ms, verify_speaker, speaker_match, keyword_match, now_ms),
        final(d).last_detection_ms == (if trigger { Some(now_ms) } else { old(d).last_detection_ms }),
        final(d).audio_buf == old(d).audio_buf,
        final(d).pre_buf == old(d).pre_buf,
        final(d).in_speech_burst == old(d).in_speech_burst,
        final(d).is_buffering == old(d).is_buffering,
        final(d).speech_run_ms == old(d).speech_run_ms,
        final(d).silence_run_ms == old(d).silence_run_ms,
{
    if !(keyword_match && (!verify_speaker || speaker_match)) {
        return false;
    }
    let ok = match d.last_detection_ms {
        None => true,
        Some(t) => now_ms < t || now_ms - t >= DETECTION_COOLDOWN_MS,
    };
    if ok {
        d.last_detection_ms = Some(now_ms);
    }
    ok
}

/// An enrolled speaker: the name and when the voiceprint was written.
pub struct SpeakerInfo {
    pub name: String,
    pub enrolled_at: String,
}

/// The speaker a voiceprint file belongs to: `<name>.bin` with a non-empty
/// name, as a path's extension and stem read it.
pub open spec fn speaker_of_file(file_name: Seq<char>) -> Option<Seq<char>> {
    let n = file_name.len();
    if n > 4 && file_name.subrange(n - 4, n as int) == ".bin"@ {
        Some(file_name.subrange(0, n - 4))
    } else {
        None
    }
}

pub fn speaker_name_from_file(file_name: &str) -> (r: Option<String>)
    ensures
        match r {
            Some(s) => speaker_of_file(file_name@) == Some(s@),
            None => speaker_of_file(file_name@) is None,
        },
{
    let v = chars_of(file_name);
    let n = v.len();
    if n > 4 && v[n - 4] == '.' && v[n - 3] == 'b' && v[n - 2] == 'i' && v[n - 1] == 'n' {
        proof {
            reveal_strlit(".bin");
            assert(v@.subrange(n - 4, n as int) =~= ".bin"@);
        }
        let mut name: Vec<char> = Vec::new();
        let mut i: usize = 0;
        while i < n - 4
            invariant
                n == v.len(),
                n > 4,
                i <= n - 4,
                name@ == v@.subrange(0, i as int),
            decreases n - 4 - i,
        {
            name.push(v[i]);
            assert(v@.subrange(0, i + 1) == v@.subrange(0, i as int).push(v@[i as int]));
            i += 1;
        }
        Some(string_of(&name))
    } else {
        proof {
            reveal_strlit(".bin");
            if n > 4 && v@.subrange(n - 4, n as int) == ".bin"@ {
                assert(v@[n - 4] == v@.subrange(n - 4, n as int)[0]);
                assert(v@[n - 3] == v@.subrange(n - 4, n as int)[1]);
                assert(v@[n - 2] == v@.subrange(n - 4, n as int)[2]);
                assert(v@[n - 1] == v@.subrange(n - 4, n as int)[3]);
            }
        }
        None
    }
}


/// Silence costs no request: while nothing is being collected, a chunk that
/// does not continue or start a burst of speech, or a timeout, sends nothing.
pub proof fn law_silence_sends_nothing(m: WakeModel, ev: WakeEventModel)
    requires
        wake_wf(m),
        !m.is_buffering,
        ev matches WakeEventModel::Chunk { levels, .. } ==> !levels.above_speech && (levels.below_release || !m.in_speech_burst),
    ensures
        wake_step_spec(m, ev).1 is None,
        !wake_step_spec(m, ev).0.is_buffering,
{
}

/// A stretch that a chunk completes is at least `MIN_SEND_SAMPLES` long.
pub proof fn law_sent_stretch_long_enough(m: WakeModel, raw: Seq<i16>, channels: u16, sample_rate: u32, resampled: Seq<i16>, levels: WakeLevels)
    requires
        wake_wf(m),
    ensures
        ({
            let ev = WakeEventModel::Chunk { raw, channels, sample_rate, resampled, levels };
            wake_step_spec(m, ev).1 matches Some(sent) ==> sent.len() >= MIN_SEND_SAMPLES
        }),
{
}

/// While paused, nothing is sent and everything collected is forgotten.
pub proof fn law_pause_forgets(m: WakeModel)
    ensures
        wake_step_spec(m, WakeEventModel::Paused).1 is None,
        wake_step_spec(m, WakeEventModel::Paused).0.audio_buf.len() == 0,
        wake_step_spec(m, WakeEventModel::Paused).0.pre_buf.len() == 0,
        !wake_step_spec(m, WakeEventModel::Paused).0.is_buffering,
{
}

/// After a trigger at `t`, no match within the cooldown triggers again.
pub proof fn law_no_retrigger_within_cooldown(t: u64, verify: bool, speaker: bool, keyword: bool, now: u64)
    requires
        t <= now < t + DETECTION_COOLDOWN_MS,
    ensures
        !check_outcome_spec(Some(t), verify, speaker, keyword, now),
{
}

/// With speaker verification on, another voice never wakes the assistant;
/// with it off, a voiceprint is never needed to listen.
pub proof fn law_speaker_gate(f: WakeFlags, last: Option<u64>, keyword: bool, now: u64)
    requires
        !f.active,
    ensures
        !check_outcome_spec(last, true, false, keyword, now),
        begin_listener_spec(f, false, false).1 is Ok,
{
}


/// The listing entry of a file in the voiceprint folder: a speaker when the
/// file is a voiceprint, with when it was written.
pub fn speaker_info(file_name: &str, enrolled_at: String) -> (r: Option<SpeakerInfo>)
    ensures
        match r {
            Some(i) => speaker_of_file(file_name@) == Some(i.name@) && i.enrolled_at@ == enrolled_at@,
            None => speaker_of_file(file_name@) is None,
        },
{
    match speaker_name_from_file(file_name) {
        Some(name) => Some(SpeakerInfo { name, enrolled_at }),
        None => None,
    }
}

/// The voiceprint file of a speaker: `<name>.bin`.
pub fn voiceprint_file(name: &str) -> (r: String)
    ensures
        r@ == name@ + ".bin"@,
{
    let mut v = chars_of(name);
    append_chars(&mut v, &chars_of(".bin"));
    string_of(&v)
}


/// A speaker's voiceprint file lists back under the speaker's name.
pub proof fn law_voiceprint_name_round_trip(name: Seq<char>)
    requires
        name.len() > 0,
    ensures
        speaker_of_file(name + ".bin"@) == Some(name),
{
    reveal_strlit(".bin");
    let f = name + ".bin"@;
    assert(f.subrange(f.len() - 4, f.len() as int) =~= ".bin"@);
    assert(f.subrange(0, f.len() - 4) =~= name);
}

/// A speaker embedding as the speech server sends it: standard base64 of
/// the embedding's bytes. The error reads `base64 decode failed: <reason>`.
pub fn decode_embedding(b64: &str) -> (r: Result<Vec<u8>, String>)
    ensures
        match r {
            Ok(v) => standard_base64_decode(b64@) == Some(v@),
            Err(e) => standard_base64_decode(b64@) is None && e@.len() >= 22 && e@.take(22)
                == "base64 decode failed: "@,
        },
{
    match base64_decode(b64) {
        Ok(v) => Ok(v),
        Err(e) => {
            let mut m = chars_of("base64 decode failed: ");
            append_chars(&mut m, &chars_of(decode_error_text(&e).as_str()));
            proof {
                reveal_strlit("base64 decode failed: ");
                assert(m@.take(22) =~= "base64 decode failed: "@);
            }
            Err(string_of(&m))
        },
    }
}

} // verus!
