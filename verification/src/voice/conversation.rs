//! The continuous-conversation state machine.
//!
//! Multi-turn voice interaction: listen for an utterance (energy VAD on the
//! streamed microphone signal), hand it to speech-to-text, wait while the
//! reply is spoken, then listen again; end after a quiet spell. Speaking into
//! the reply (barge-in) cuts it off and starts a fresh utterance.
//!
//! `conversation_step` decides; the worker outside the library feeds it the
//! events (audio chunks with their loudness already classified, STT results,
//! TTS start and end, ticks) and carries out the action it returns.
use vstd::prelude::*;

use crate::voice::audio::{downmix_to_mono, mono_of};

verus! {

/// Fallback for the silence that ends an utterance.
pub const SEGMENT_END_SILENCE_MS: u64 = 1500;
/// Speech shorter than this is not worth transcribing.
pub const MIN_UTTERANCE_MS: u64 = 300;
/// An utterance is cut after this many seconds.
pub const MAX_UTTERANCE_S: u64 = 30;
/// After TTS starts, barge-in is not considered for this long.
pub const BARGE_IN_WARMUP_MS: u64 = 600;
/// Barge-in needs this much sustained loud speech.
pub const BARGE_IN_MIN_SUSTAINED_MS: u64 = 350;
/// Speaking returns to listening after this long without the end of TTS.
pub const SPEAKING_SAFETY_TIMEOUT_MS: u64 = 30000;
/// This many empty transcriptions in a row end the conversation.
pub const MAX_CONSECUTIVE_EMPTY_STT: u32 = 1;

#[derive(Clone, Copy, PartialEq, Eq, Structural)]
pub enum Mode {
    Listening,
    Transcribing,
    Speaking,
}

/// Settings of one conversation, fixed at its start.
#[derive(Clone, Copy)]
pub struct ConversationSettings {
    /// Quiet time that ends the conversation, in seconds (2 to 30).
    pub silence_timeout_s: u64,
    /// Silence after speech that ends an utterance, in ms (500 to 5000).
    pub pause_tolerance_ms: u64,
    /// Stop after the first transcription.
    pub single_shot: bool,
    pub barge_in_enabled: bool,
    /// Channel count of the microphone stream.
    pub channels: u16,
}

pub open spec fn clamp_u64(x: u64, lo: u64, hi: u64) -> u64 {
    if x < lo {
        lo
    } else if x > hi {
        hi
    } else {
        x
    }
}

fn clamp_exec(x: u64, lo: u64, hi: u64) -> (r: u64)
    ensures
        r == clamp_u64(x, lo, hi),
{
    if x < lo {
        lo
    } else if x > hi {
        hi
    } else {
        x
    }
}

/// The settings a conversation starts with: the quiet timeout (default 5 s)
/// held to 2..=30 s, the pause tolerance (default 1500 ms) to 500..=5000 ms.
pub fn conversation_settings(
    silence_timeout_s: Option<u64>,
    pause_tolerance_ms: Option<u64>,
    single_shot: Option<bool>,
    barge_in_enabled: Option<bool>,
    channels: u16,
) -> (r: ConversationSettings)
    ensures
        r.silence_timeout_s == clamp_u64(
            match silence_timeout_s {
                Some(t) => t,
                None => 5,
            },
            2,
            30,
        ),
        r.pause_tolerance_ms == clamp_u64(
            match pause_tolerance_ms {
                Some(t) => t,
                None => SEGMENT_END_SILENCE_MS,
            },
            500,
            5000,
        ),
        r.single_shot == (single_shot == Some(true)),
        r.barge_in_enabled == (barge_in_enabled != Some(false)),
        r.channels == channels,
        r.wf(),
{
    let t = match silence_timeout_s {
        Some(t) => t,
        None => 5,
    };
    let p = match pause_tolerance_ms {
        Some(p) => p,
        None => SEGMENT_END_SILENCE_MS,
    };
    ConversationSettings {
        silence_timeout_s: clamp_exec(t, 2, 30),
        pause_tolerance_ms: clamp_exec(p, 500, 5000),
        single_shot: match single_shot {
            Some(b) => b,
            None => false,
        },
        barge_in_enabled: match barge_in_enabled {
            Some(b) => b,
            None => true,
        },
        channels,
    }
}

impl ConversationSettings {
    pub open spec fn wf(&self) -> bool {
        2 <= self.silence_timeout_s <= 30
    }
}

pub struct ConversationState {
    pub mode: Mode,
    /// The utterance being collected (mono samples).
    pub utter_buf: Vec<i16>,
    pub utter_sr: u32,
    pub silence_run_ms: u64,
    pub accumulated_speech_ms: u64,
    pub listening_idle_ms: u64,
    pub idle_target_ms: u64,
    /// When speaking began (ms on the worker's clock).
    pub speaking_since: Option<u64>,
    pub consecutive_empty_stt: u32,
    /// When the current TTS chunk started playing.
    pub tts_started_at: Option<u64>,
    pub barge_in_run_ms: u64,
    pub barge_in_active: bool,
    /// The next utterance follows a barge-in: check the speaker first.
    pub verify_next_utterance: bool,
    /// Energy VAD hysteresis: inside a burst of speech.
    pub in_speech_burst: bool,
}

/// The state as mathematics: the utterance buffer as a sequence.
pub struct ConvModel {
    pub mode: Mode,
    pub buf: Seq<i16>,
    pub utter_sr: u32,
    pub silence_run_ms: u64,
    pub accumulated_speech_ms: u64,
    pub listening_idle_ms: u64,
    pub idle_target_ms: u64,
    pub speaking_since: Option<u64>,
    pub consecutive_empty_stt: u32,
    pub tts_started_at: Option<u64>,
    pub barge_in_run_ms: u64,
    pub barge_in_active: bool,
    pub verify_next_utterance: bool,
    pub in_speech_burst: bool,
}

impl View for ConversationState {
    type V = ConvModel;

    open spec fn view(&self) -> ConvModel {
        ConvModel {
            mode: self.mode,
            buf: self.utter_buf@,
            utter_sr: self.utter_sr,
            silence_run_ms: self.silence_run_ms,
            accumulated_speech_ms: self.accumulated_speech_ms,
            listening_idle_ms: self.listening_idle_ms,
            idle_target_ms: self.idle_target_ms,
            speaking_since: self.speaking_since,
            consecutive_empty_stt: self.consecutive_empty_stt,
            tts_started_at: self.tts_started_at,
            barge_in_run_ms: self.barge_in_run_ms,
            barge_in_active: self.barge_in_active,
            verify_next_utterance: self.verify_next_utterance,
            in_speech_burst: self.in_speech_burst,
        }
    }
}

/// Loudness of an audio chunk, classified by the caller against the
/// thresholds in force (which adapt to the room's noise floor).
#[derive(Clone, Copy)]
pub struct ChunkLevels {
    /// Above the threshold that starts speech.
    pub above_speech: bool,
    /// Below the threshold that ends a burst of speech.
    pub below_release: bool,
    /// Quiet enough to feed the noise-floor estimate.
    pub quiet_for_noise_floor: bool,
    /// Above the (louder) barge-in threshold.
    pub above_barge_in: bool,
    /// Above the barge-in release threshold.
    pub above_barge_in_release: bool,
}

pub enum ConversationEvent {
    Stop,
    /// Raw interleaved samples at `sample_rate`, their levels, and the time.
    AudioChunk { samples: Vec<i16>, sample_rate: u32, levels: ChunkLevels, now_ms: u64 },
    /// A transcription came back; `has_text` when it holds words.
    SttResult { has_text: bool, now_ms: u64 },
    TtsStarted { now_ms: u64 },
    TtsDone,
    /// Nothing arrived within a tick.
    Tick { now_ms: u64 },
}

pub enum EventModel {
    Stop,
    AudioChunk { samples: Seq<i16>, sample_rate: u32, levels: ChunkLevels, now_ms: u64 },
    SttResult { has_text: bool, now_ms: u64 },
    TtsStarted { now_ms: u64 },
    TtsDone,
    Tick { now_ms: u64 },
}

impl View for ConversationEvent {
    type V = EventModel;

    open spec fn view(&self) -> EventModel {
        match self {
            ConversationEvent::Stop => EventModel::Stop,
            ConversationEvent::AudioChunk { samples, sample_rate, levels, now_ms } => EventModel::AudioChunk {
                samples: samples@,
                sample_rate: *sample_rate,
                levels: *levels,
                now_ms: *now_ms,
            },
            ConversationEvent::SttResult { has_text, now_ms } => EventModel::SttResult {
                has_text: *has_text,
                now_ms: *now_ms,
            },
            ConversationEvent::TtsStarted { now_ms } => EventModel::TtsStarted { now_ms: *now_ms },
            ConversationEvent::TtsDone => EventModel::TtsDone,
            ConversationEvent::Tick { now_ms } => EventModel::Tick { now_ms: *now_ms },
        }
    }
}

#[derive(Clone, Copy, PartialEq, Eq, Structural)]
pub enum StateName {
    Listening,
    Transcribing,
    Speaking,
}

/// A request to transcribe an utterance.
pub struct TranscribeRequest {
    pub samples: Vec<i16>,
    pub sample_rate: u32,
    /// Check the speaker against the enrolled voices first.
    pub verify_speaker: bool,
    pub barge_in_enabled: bool,
}

pub struct ConversationAction {
    /// Announce the new state to the UI.
    pub announce: Option<StateName>,
    pub transcribe: Option<TranscribeRequest>,
    /// Cut off the reply being spoken and tell the UI about the barge-in.
    pub barge_in: bool,
    /// Feed this chunk's level into the noise-floor estimate.
    pub feed_noise_floor: bool,
    /// The conversation is over: tell the UI and stop the worker.
    pub end: bool,
}

pub struct TranscribeModel {
    pub samples: Seq<i16>,
    pub sample_rate: u32,
    pub verify_speaker: bool,
    pub barge_in_enabled: bool,
}

pub struct ActionModel {
    pub announce: Option<StateName>,
    pub transcribe: Option<TranscribeModel>,
    pub barge_in: bool,
    pub feed_noise_floor: bool,
    pub end: bool,
}

impl View for ConversationAction {
    type V = ActionModel;

    open spec fn view(&self) -> ActionModel {
        ActionModel {
            announce: self.announce,
            transcribe: match &self.transcribe {
                Some(t) => Some(
                    TranscribeModel {
                        samples: t.samples@,
                        sample_rate: t.sample_rate,
                        verify_speaker: t.verify_speaker,
                        barge_in_enabled: t.barge_in_enabled,
                    },
                ),
                None => None,
            },
            barge_in: self.barge_in,
            feed_noise_floor: self.feed_noise_floor,
            end: self.end,
        }
    }
}

pub open spec fn quiet() -> ActionModel {
    ActionModel { announce: None, transcribe: None, barge_in: false, feed_noise_floor: false, end: false }
}

pub open spec fn announce(n: StateName) -> ActionModel {
    ActionModel { announce: Some(n), ..quiet() }
}

pub open spec fn ending() -> ActionModel {
    ActionModel { end: true, ..quiet() }
}

pub open spec fn initial_model(s: ConversationSettings, sample_rate: u32) -> ConvModel {
    ConvModel {
        mode: Mode::Listening,
        buf: Seq::empty(),
        utter_sr: sample_rate,
        silence_run_ms: 0,
        accumulated_speech_ms: 0,
        listening_idle_ms: 0,
        idle_target_ms: (s.silence_timeout_s * 1000) as u64,
        speaking_since: None,
        consecutive_empty_stt: 0,
        tts_started_at: None,
        barge_in_run_ms: 0,
        barge_in_active: false,
        verify_next_utterance: false,
        in_speech_burst: false,
    }
}

/// The state a conversation starts in: listening, nothing buffered.
pub fn initial_state(s: &ConversationSettings, sample_rate: u32) -> (st: ConversationState)
    requires
        s.wf(),
    ensures
        st@ == initial_model(*s, sample_rate),
{
    let st = ConversationState {
        mode: Mode::Listening,
        utter_buf: Vec::new(),
        utter_sr: sample_rate,
        silence_run_ms: 0,
        accumulated_speech_ms: 0,
        listening_idle_ms: 0,
        idle_target_ms: s.silence_timeout_s * 1000,
        speaking_since: None,
        consecutive_empty_stt: 0,
        tts_started_at: None,
        barge_in_run_ms: 0,
        barge_in_active: false,
        verify_next_utterance: false,
        in_speech_burst: false,
    };
    assert(st@.buf =~= Seq::<i16>::empty());
    st
}

pub open spec fn sat_add(a: u64, b: u64) -> u64 {
    if a + b > u64::MAX {
        u64::MAX
    } else {
        (a + b) as u64
    }
}

fn sat_add_exec(a: u64, b: u64) -> (r: u64)
    ensures
        r == sat_add(a, b),
{
    a.saturating_add(b)
}

pub open spec fn sat_sub(a: u64, b: u64) -> u64 {
    if a < b {
        0
    } else {
        (a - b) as u64
    }
}

pub open spec fn rate_or_one(sr: u32) -> int {
    if sr == 0 {
        1
    } else {
        sr as int
    }
}

/// Milliseconds of audio in `n` samples at `sr` Hz.
pub open spec fn chunk_ms_of(n: nat, sr: u32) -> u64 {
    ((n as int * 1000) / rate_or_one(sr)) as u64
}

/// The utterance has reached its maximum length.
pub open spec fn utterance_full(len: nat, sr: u32) -> bool {
    len >= MAX_UTTERANCE_S * rate_or_one(sr)
}

/// After TTS ends, a speaking timeout or an empty transcription: listening
/// again with a fresh quiet-timeout.
pub open spec fn relisten(m: ConvModel, s: ConversationSettings) -> ConvModel {
    ConvModel {
        mode: Mode::Listening,
        listening_idle_ms: 0,
        idle_target_ms: (s.silence_timeout_s * 1000) as u64,
        speaking_since: None,
        tts_started_at: None,
        barge_in_run_ms: 0,
        in_speech_burst: false,
        ..m
    }
}

/// An audio chunk while listening.
pub open spec fn listening_chunk(
    s: ConversationSettings,
    m: ConvModel,
    mono: Seq<i16>,
    sr: u32,
    levels: ChunkLevels,
    chunk_ms: u64,
) -> (ConvModel, ActionModel) {
    if m.in_speech_burst {
        (
            ConvModel {
                buf: m.buf + mono,
                utter_sr: sr,
                accumulated_speech_ms: sat_add(m.accumulated_speech_ms, chunk_ms),
                silence_run_ms: 0,
                listening_idle_ms: 0,
                ..m
            },
            quiet(),
        )
    } else {
        let feed = m.accumulated_speech_ms == 0 && levels.quiet_for_noise_floor;
        if m.accumulated_speech_ms > 0 {
            let buf = m.buf + mono;
            let silence = sat_add(m.silence_run_ms, chunk_ms);
            if (silence >= s.pause_tolerance_ms && m.accumulated_speech_ms >= MIN_UTTERANCE_MS)
                || utterance_full(buf.len(), m.utter_sr) {
                (
                    ConvModel {
                        buf: Seq::empty(),
                        accumulated_speech_ms: 0,
                        silence_run_ms: 0,
                        mode: Mode::Transcribing,
                        verify_next_utterance: false,
                        ..m
                    },
                    ActionModel {
                        announce: Some(StateName::Transcribing),
                        transcribe: Some(
                            TranscribeModel {
                                samples: buf,
                                sample_rate: m.utter_sr,
                                verify_speaker: m.verify_next_utterance,
                                barge_in_enabled: s.barge_in_enabled,
                            },
                        ),
                        feed_noise_floor: feed,
                        ..quiet()
                    },
                )
            } else {
                (ConvModel { buf, silence_run_ms: silence, ..m }, ActionModel { feed_noise_floor: feed, ..quiet() })
            }
        } else {
            let idle = sat_add(m.listening_idle_ms, chunk_ms);
            if idle >= m.idle_target_ms {
                (ConvModel { listening_idle_ms: idle, ..m }, ActionModel { end: true, feed_noise_floor: feed, ..quiet() })
            } else {
                (ConvModel { listening_idle_ms: idle, ..m }, ActionModel { feed_noise_floor: feed, ..quiet() })
            }
        }
    }
}

/// An audio chunk while the reply is spoken: barge-in detection.
pub open spec fn speaking_chunk(
    s: ConversationSettings,
    m: ConvModel,
    sr: u32,
    levels: ChunkLevels,
    chunk_ms: u64,
    now_ms: u64,
) -> (ConvModel, ActionModel) {
    if !s.barge_in_enabled {
        (m, quiet())
    } else {
        let in_warmup = match m.tts_started_at {
            Some(t) => sat_sub(now_ms, t) < BARGE_IN_WARMUP_MS,
            None => false,
        };
        let (run, active) = if m.tts_started_at.is_none() || in_warmup {
            (0u64, false)
        } else if levels.above_barge_in {
            (sat_add(m.barge_in_run_ms, chunk_ms), true)
        } else if m.barge_in_active && levels.above_barge_in_release {
            (sat_add(m.barge_in_run_ms, chunk_ms), true)
        } else {
            (0u64, false)
        };
        if run >= BARGE_IN_MIN_SUSTAINED_MS {
            (
                ConvModel {
                    buf: Seq::empty(),
                    utter_sr: sr,
                    accumulated_speech_ms: 0,
                    silence_run_ms: 0,
                    listening_idle_ms: 0,
                    speaking_since: None,
                    tts_started_at: None,
                    barge_in_run_ms: 0,
                    barge_in_active: false,
                    in_speech_burst: false,
                    verify_next_utterance: true,
                    mode: Mode::Listening,
                    ..m
                },
                ActionModel { barge_in: true, announce: Some(StateName::Listening), ..quiet() },
            )
        } else {
            (ConvModel { barge_in_run_ms: run, barge_in_active: active, ..m }, quiet())
        }
    }
}

/// What the conversation does on an event: the next state and the action.
pub open spec fn conversation_step_spec(s: ConversationSettings, m: ConvModel, ev: EventModel) -> (
    ConvModel,
    ActionModel,
) {
    match ev {
        EventModel::Stop => {
            if m.buf.len() > 0 && m.accumulated_speech_ms >= MIN_UTTERANCE_MS {
                (
                    ConvModel { buf: Seq::empty(), mode: Mode::Transcribing, ..m },
                    ActionModel {
                        announce: Some(StateName::Transcribing),
                        transcribe: Some(
                            TranscribeModel {
                                samples: m.buf,
                                sample_rate: m.utter_sr,
                                verify_speaker: false,
                                barge_in_enabled: false,
                            },
                        ),
                        ..quiet()
                    },
                )
            } else {
                (m, ending())
            }
        },
        EventModel::AudioChunk { samples, sample_rate, levels, now_ms } => {
            if samples.len() == 0 {
                (m, quiet())
            } else {
                let mono = mono_of(samples, s.channels);
                let chunk_ms = chunk_ms_of(mono.len(), sample_rate);
                let burst = if levels.above_speech {
                    true
                } else if levels.below_release {
                    false
                } else {
                    m.in_speech_burst
                };
                let m1 = ConvModel { in_speech_burst: burst, ..m };
                match m.mode {
                    Mode::Listening => listening_chunk(s, m1, mono, sample_rate, levels, chunk_ms),
                    Mode::Transcribing => (m1, quiet()),
                    Mode::Speaking => speaking_chunk(s, m1, sample_rate, levels, chunk_ms, now_ms),
                }
            }
        },
        EventModel::SttResult { has_text, now_ms } => {
            if has_text {
                if s.single_shot {
                    (ConvModel { consecutive_empty_stt: 0, ..m }, ending())
                } else {
                    (
                        ConvModel {
                            consecutive_empty_stt: 0,
                            mode: Mode::Speaking,
                            speaking_since: Some(now_ms),
                            tts_started_at: None,
                            barge_in_run_ms: 0,
                            in_speech_burst: false,
                            ..m
                        },
                        announce(StateName::Speaking),
                    )
                }
            } else {
                let empties: u32 = if m.consecutive_empty_stt == u32::MAX {
                    u32::MAX
                } else {
                    (m.consecutive_empty_stt + 1) as u32
                };
                if empties >= MAX_CONSECUTIVE_EMPTY_STT {
                    (ConvModel { consecutive_empty_stt: empties, ..m }, ending())
                } else {
                    (
                        ConvModel {
                            consecutive_empty_stt: empties,
                            silence_run_ms: 0,
                            accumulated_speech_ms: 0,
                            buf: Seq::empty(),
                            ..relisten(m, s)
                        },
                        announce(StateName::Listening),
                    )
                }
            }
        },
        EventModel::TtsStarted { now_ms } => {
            if m.mode == Mode::Speaking {
                (
                    ConvModel { speaking_since: Some(now_ms), tts_started_at: Some(now_ms), ..m },
                    announce(StateName::Speaking),
                )
            } else {
                (ConvModel { tts_started_at: Some(now_ms), ..m }, quiet())
            }
        },
        EventModel::TtsDone => (
            ConvModel { silence_run_ms: 0, accumulated_speech_ms: 0, buf: Seq::empty(), ..relisten(m, s) },
            announce(StateName::Listening),
        ),
        EventModel::Tick { now_ms } => {
            match m.speaking_since {
                Some(since) => {
                    if m.mode == Mode::Speaking && sat_sub(now_ms, since) >= SPEAKING_SAFETY_TIMEOUT_MS {
                        (relisten(m, s), announce(StateName::Listening))
                    } else {
                        (m, quiet())
                    }
                },
                None => (m, quiet()),
            }
        },
    }
}

fn quiet_action() -> (a: ConversationAction)
    ensures
        a@ == quiet(),
{
    ConversationAction { announce: None, transcribe: None, barge_in: false, feed_noise_floor: false, end: false }
}

fn relisten_exec(st: &mut ConversationState, s: &ConversationSettings)
    requires
        s.wf(),
    ensures
        final(st)@ == relisten(old(st)@, *s),
{
    st.mode = Mode::Listening;
    st.listening_idle_ms = 0;
    st.idle_target_ms = s.silence_timeout_s * 1000;
    st.speaking_since = None;
    st.tts_started_at = None;
    st.barge_in_run_ms = 0;
    st.in_speech_burst = false;
}

fn take_buf(st: &mut ConversationState) -> (b: Vec<i16>)
    ensures
        b@ == old(st)@.buf,
        final(st)@ == (ConvModel { buf: Seq::empty(), ..old(st)@ }),
{
    let mut b: Vec<i16> = Vec::new();
    std::mem::swap(&mut b, &mut st.utter_buf);
    assert(st@.buf =~= Seq::<i16>::empty());
    b
}

fn extend_buf(st: &mut ConversationState, mono: &Vec<i16>)
    ensures
        final(st)@ == (ConvModel { buf: old(st)@.buf + mono@, ..old(st)@ }),
{
    let mut i: usize = 0;
    while i < mono.len()
        invariant
            i <= mono.len(),
            st@ == (ConvModel { buf: old(st)@.buf + mono@.take(i as int), ..old(st)@ }),
        decreases mono.len() - i,
    {
        st.utter_buf.push(mono[i]);
        assert(old(st)@.buf + mono@.take(i + 1) =~= (old(st)@.buf + mono@.take(i as int)).push(mono@[i as int]));
        i += 1;
    }
    assert(mono@.take(mono.len() as int) =~= mono@);
}

fn clear_buf(st: &mut ConversationState)
    ensures
        final(st)@ == (ConvModel { buf: Seq::empty(), ..old(st)@ }),
{
    st.utter_buf.clear();
    assert(st@.buf =~= Seq::<i16>::empty());
}

/// One step of the conversation: see `conversation_step_spec`.
pub fn conversation_step(s: &ConversationSettings, st: &mut ConversationState, ev: ConversationEvent) -> (a:
    ConversationAction)
    requires
        s.wf(),
        ev@ matches EventModel::AudioChunk { samples, .. } ==> samples.len() * 1000 <= u64::MAX,
    ensures
        (final(st)@, a@) == conversation_step_spec(*s, old(st)@, ev@),
{
    match ev {
        ConversationEvent::Stop => {
            if st.utter_buf.len() > 0 && st.accumulated_speech_ms >= MIN_UTTERANCE_MS {
                let sr = st.utter_sr;
                let flushed = take_buf(st);
                st.mode = Mode::Transcribing;
                ConversationAction {
                    announce: Some(StateName::Transcribing),
                    transcribe: Some(
                        TranscribeRequest {
                            samples: flushed,
                            sample_rate: sr,
                            verify_speaker: false,
                            barge_in_enabled: false,
                        },
                    ),
                    barge_in: false,
                    feed_noise_floor: false,
                    end: false,
                }
            } else {
                ConversationAction { end: true, ..quiet_action() }
            }
        },
        ConversationEvent::AudioChunk { samples, sample_rate, levels, now_ms } => {
            if samples.len() == 0 {
                return quiet_action();
            }
            let mono = downmix_to_mono(&samples, s.channels);
            proof {
                if s.channels > 1 {
                    assert(mono@.len() <= samples@.len()) by (nonlinear_arith)
                        requires
                            mono@.len() == samples@.len() as int / s.channels as int,
                            s.channels > 1,
                    ;
                }
            }
            let rate: u64 = if sample_rate == 0 {
                1
            } else {
                sample_rate as u64
            };
            let chunk_ms = (mono.len() as u64 * 1000) / rate;
            if levels.above_speech {
                st.in_speech_burst = true;
            } else if levels.below_release {
                st.in_speech_burst = false;
            }
            match st.mode {
                Mode::Listening => {
                    if st.in_speech_burst {
                        extend_buf(st, &mono);
                        st.utter_sr = sample_rate;
                        st.accumulated_speech_ms = sat_add_exec(st.accumulated_speech_ms, chunk_ms);
                        st.silence_run_ms = 0;
                        st.listening_idle_ms = 0;
                        quiet_action()
                    } else {
                        let feed = st.accumulated_speech_ms == 0 && levels.quiet_for_noise_floor;
                        if st.accumulated_speech_ms > 0 {
                            extend_buf(st, &mono);
                            st.silence_run_ms = sat_add_exec(st.silence_run_ms, chunk_ms);
                            let utter_rate: u64 = if st.utter_sr == 0 {
                                1
                            } else {
                                st.utter_sr as u64
                            };
                            let full = st.utter_buf.len() as u64 >= MAX_UTTERANCE_S * utter_rate;
                            if (st.silence_run_ms >= s.pause_tolerance_ms && st.accumulated_speech_ms
                                >= MIN_UTTERANCE_MS) || full {
                                let sr = st.utter_sr;
                                let verify = st.verify_next_utterance;
                                let flushed = take_buf(st);
                                st.accumulated_speech_ms = 0;
                                st.silence_run_ms = 0;
                                st.mode = Mode::Transcribing;
                                st.verify_next_utterance = false;
                                ConversationAction {
                                    announce: Some(StateName::Transcribing),
                                    transcribe: Some(
                                        TranscribeRequest {
                                            samples: flushed,
                                            sample_rate: sr,
                                            verify_speaker: verify,
                                            barge_in_enabled: s.barge_in_enabled,
                                        },
                                    ),
                                    barge_in: false,
                                    feed_noise_floor: feed,
                                    end: false,
                                }
                            } else {
                                ConversationAction { feed_noise_floor: feed, ..quiet_action() }
                            }
                        } else {
                            st.listening_idle_ms = sat_add_exec(st.listening_idle_ms, chunk_ms);
                            if st.listening_idle_ms >= st.idle_target_ms {
                                ConversationAction { end: true, feed_noise_floor: feed, ..quiet_action() }
                            } else {
                                ConversationAction { feed_noise_floor: feed, ..quiet_action() }
                            }
                        }
                    }
                },
                Mode::Transcribing => quiet_action(),
                Mode::Speaking => {
                    if !s.barge_in_enabled {
                        return quiet_action();
                    }
                    let in_warmup = match st.tts_started_at {
                        Some(t) => now_ms.saturating_sub(t) < BARGE_IN_WARMUP_MS,
                        None => false,
                    };
                    if st.tts_started_at.is_none() || in_warmup {
                        st.barge_in_run_ms = 0;
                        st.barge_in_active = false;
                    } else if levels.above_barge_in {
                        st.barge_in_active = true;
                        st.barge_in_run_ms = sat_add_exec(st.barge_in_run_ms, chunk_ms);
                    } else if st.barge_in_active && levels.above_barge_in_release {
                        st.barge_in_run_ms = sat_add_exec(st.barge_in_run_ms, chunk_ms);
                    } else {
                        st.barge_in_active = false;
                        st.barge_in_run_ms = 0;
                    }
                    if st.barge_in_run_ms >= BARGE_IN_MIN_SUSTAINED_MS {
                        clear_buf(st);
                        st.utter_sr = sample_rate;
                        st.accumulated_speech_ms = 0;
                        st.silence_run_ms = 0;
                        st.listening_idle_ms = 0;
                        st.speaking_since = None;
                        st.tts_started_at = None;
                        st.barge_in_run_ms = 0;
                        st.barge_in_active = false;
                        st.in_speech_burst = false;
                        st.verify_next_utterance = true;
                        st.mode = Mode::Listening;
                        ConversationAction {
                            barge_in: true,
                            announce: Some(StateName::Listening),
                            ..quiet_action()
                        }
                    } else {
                        quiet_action()
                    }
                },
            }
        },
        ConversationEvent::SttResult { has_text, now_ms } => {
            if has_text {
                st.consecutive_empty_stt = 0;
                if s.single_shot {
                    return ConversationAction { end: true, ..quiet_action() };
                }
                st.mode = Mode::Speaking;
                st.speaking_since = Some(now_ms);
                st.tts_started_at = None;
                st.barge_in_run_ms = 0;
                st.in_speech_burst = false;
                ConversationAction { announce: Some(StateName::Speaking), ..quiet_action() }
            } else {
                st.consecutive_empty_stt = st.consecutive_empty_stt.saturating_add(1);
                if st.consecutive_empty_stt >= MAX_CONSECUTIVE_EMPTY_STT {
                    return ConversationAction { end: true, ..quiet_action() };
                }
                relisten_exec(st, s);
                st.silence_run_ms = 0;
                st.accumulated_speech_ms = 0;
                clear_buf(st);
                ConversationAction { announce: Some(StateName::Listening), ..quiet_action() }
            }
        },
        ConversationEvent::TtsStarted { now_ms } => {
            if st.mode == Mode::Speaking {
                st.speaking_since = Some(now_ms);
                st.tts_started_at = Some(now_ms);
                ConversationAction { announce: Some(StateName::Speaking), ..quiet_action() }
            } else {
                st.tts_started_at = Some(now_ms);
                quiet_action()
            }
        },
        ConversationEvent::TtsDone => {
            relisten_exec(st, s);
            st.silence_run_ms = 0;
            st.accumulated_speech_ms = 0;
            clear_buf(st);
            ConversationAction { announce: Some(StateName::Listening), ..quiet_action() }
        },
        ConversationEvent::Tick { now_ms } => {
            match st.speaking_since {
                Some(since) => {
                    if st.mode == Mode::Speaking && now_ms.saturating_sub(since) >= SPEAKING_SAFETY_TIMEOUT_MS {
                        relisten_exec(st, s);
                        ConversationAction { announce: Some(StateName::Listening), ..quiet_action() }
                    } else {
                        quiet_action()
                    }
                },
                None => quiet_action(),
            }
        },
    }
}


// ── Laws ──────────────────────────────────────────────────────────────────────

/// Barge-in fires only while the reply is being spoken, with barge-in
/// enabled, once TTS audio has been playing for the warm-up period.
pub proof fn law_barge_in_needs_playback(s: ConversationSettings, m: ConvModel, ev: EventModel)
    requires
        conversation_step_spec(s, m, ev).1.barge_in,
    ensures
        s.barge_in_enabled,
        m.mode == Mode::Speaking,
        ev matches EventModel::AudioChunk { now_ms, .. } && m.tts_started_at matches Some(t) && sat_sub(
            now_ms,
            t,
        ) >= BARGE_IN_WARMUP_MS,
{
}

/// An utterance is sent for transcription only from buffered speech: on a
/// stop with enough speech buffered, or while listening after speech has been
/// heard. The buffer is then empty and the machine is transcribing.
pub proof fn law_transcribe_takes_the_utterance(s: ConversationSettings, m: ConvModel, ev: EventModel)
    requires
        conversation_step_spec(s, m, ev).1.transcribe.is_some(),
    ensures
        conversation_step_spec(s, m, ev).0.buf.len() == 0,
        conversation_step_spec(s, m, ev).0.mode == Mode::Transcribing,
        (ev matches EventModel::Stop && m.buf.len() > 0 && m.accumulated_speech_ms >= MIN_UTTERANCE_MS) || (
        ev is AudioChunk && m.mode == Mode::Listening && m.accumulated_speech_ms > 0),
{
}

/// When the reply has been spoken, the conversation listens again from a
/// clean slate.
pub proof fn law_tts_done_listens_afresh(s: ConversationSettings, m: ConvModel)
    ensures
        conversation_step_spec(s, m, EventModel::TtsDone).0.mode == Mode::Listening,
        conversation_step_spec(s, m, EventModel::TtsDone).0.buf.len() == 0,
        conversation_step_spec(s, m, EventModel::TtsDone).0.accumulated_speech_ms == 0,
        conversation_step_spec(s, m, EventModel::TtsDone).0.listening_idle_ms == 0,
        !conversation_step_spec(s, m, EventModel::TtsDone).1.end,
{
    assert(conversation_step_spec(s, m, EventModel::TtsDone).0.buf =~= Seq::<i16>::empty());
}

/// Empty transcriptions (noise that held no words) end the conversation once
/// `MAX_CONSECUTIVE_EMPTY_STT` of them have come in a row; a transcription
/// with words starts the count afresh.
pub proof fn law_empty_transcriptions_end(s: ConversationSettings, m: ConvModel, now_ms: u64)
    ensures
        m.consecutive_empty_stt + 1 >= MAX_CONSECUTIVE_EMPTY_STT ==> conversation_step_spec(
            s,
            m,
            EventModel::SttResult { has_text: false, now_ms },
        ).1.end,
        conversation_step_spec(s, m, EventModel::SttResult { has_text: true, now_ms }).0.consecutive_empty_stt
            == 0,
{
}

/// In single-shot mode the first transcription with words ends the
/// conversation; otherwise it moves on to speaking the reply.
pub proof fn law_words_end_a_single_shot(s: ConversationSettings, m: ConvModel, now_ms: u64)
    ensures
        ({
            let (m1, a) = conversation_step_spec(s, m, EventModel::SttResult { has_text: true, now_ms });
            if s.single_shot {
                a.end
            } else {
                !a.end && m1.mode == Mode::Speaking
            }
        }),
{
}

/// A stop ends the conversation, unless an utterance is buffered: then that
/// is transcribed first and a second stop ends it.
pub proof fn law_second_stop_ends(s: ConversationSettings, m: ConvModel)
    ensures
        conversation_step_spec(s, m, EventModel::Stop).1.end || conversation_step_spec(
            s,
            conversation_step_spec(s, m, EventModel::Stop).0,
            EventModel::Stop,
        ).1.end,
{
}

/// A conversation left speaking without word from TTS returns to listening
/// after the safety timeout.
pub proof fn law_speaking_times_out(s: ConversationSettings, m: ConvModel, since: u64, now_ms: u64)
    requires
        m.mode == Mode::Speaking,
        m.speaking_since == Some(since),
        now_ms >= since + SPEAKING_SAFETY_TIMEOUT_MS,
    ensures
        conversation_step_spec(s, m, EventModel::Tick { now_ms }).0.mode == Mode::Listening,
{
}


// ── The conversation slot ─────────────────────────────────────────────────────

/// Whether a conversation runs, and which worker (by generation) owns it.
/// A worker that exits late must not clear the slot of a newer conversation.
pub struct ConversationControl {
    pub active: bool,
    pub generation: u64,
    /// Generation of the worker that owns the slot.
    pub worker: Option<u64>,
}

impl ConversationControl {
    pub fn new() -> (c: ConversationControl)
        ensures
            !c.active,
            c.generation == 0,
            c.worker.is_none(),
    {
        ConversationControl { active: false, generation: 0, worker: None }
    }
}

pub fn is_active(c: &ConversationControl) -> (r: bool)
    ensures
        r == c.active,
{
    c.active
}

/// Whether the "TTS started" signal reaches a worker.
pub fn on_tts_started(c: &ConversationControl) -> (delivered: bool)
    ensures
        delivered == c.worker.is_some(),
{
    c.worker.is_some()
}

/// Whether the "TTS done" signal reaches a worker.
pub fn on_tts_done(c: &ConversationControl) -> (delivered: bool)
    ensures
        delivered == c.worker.is_some(),
{
    c.worker.is_some()
}

/// Whether the stop request reaches a worker.
pub fn stop_conversation(c: &ConversationControl) -> (delivered: bool)
    ensures
        delivered == c.worker.is_some(),
{
    c.worker.is_some()
}

/// The first step of starting a conversation, given who holds the
/// microphone. Refused while one runs, or while a single-shot recording holds
/// the microphone; a wake-word listener is stopped first (`Ok(true)`).
pub fn begin_conversation(c: &mut ConversationControl, owner: u8) -> (r: Result<bool, String>)
    ensures
        old(c).active ==> r is Err && *final(c) == *old(c) && r->Err_0@ == "conversation already active"@,
        !old(c).active ==> {
            &&& (owner == crate::voice::record::OWNER_WAKE ==> r == Ok::<bool, String>(true) && final(c).active)
            &&& ((owner == crate::voice::record::OWNER_NONE || owner == crate::voice::record::OWNER_CONVERSATION)
                ==> r == Ok::<bool, String>(false) && final(c).active)
            &&& (owner != crate::voice::record::OWNER_WAKE && owner != crate::voice::record::OWNER_NONE && owner
                != crate::voice::record::OWNER_CONVERSATION) ==> r is Err && !final(c).active && r->Err_0@
                == "单次录音进行中，无法启动连续对话"@
            &&& final(c).generation == old(c).generation
            &&& final(c).worker == old(c).worker
        },
{
    if c.active {
        return Err(crate::text::string_of(&crate::text::chars_of("conversation already active")));
    }
    c.active = true;
    if owner == crate::voice::record::OWNER_WAKE {
        Ok(true)
    } else if owner == crate::voice::record::OWNER_NONE || owner == crate::voice::record::OWNER_CONVERSATION {
        Ok(false)
    } else {
        c.active = false;
        Err(crate::text::string_of(&crate::text::chars_of("单次录音进行中，无法启动连续对话")))
    }
}

/// The microphone could not be opened: the start is given up.
pub fn abandon_start(c: &mut ConversationControl)
    ensures
        !final(c).active,
        final(c).generation == old(c).generation,
        final(c).worker == old(c).worker,
{
    c.active = false;
}

/// Hands the slot to a new worker and gives back its generation.
pub fn register_worker(c: &mut ConversationControl) -> (g: u64)
    ensures
        g == crate::audio_queue::next_gen(old(c).generation),
        final(c).generation == g,
        final(c).worker == Some(g),
        final(c).active == old(c).active,
{
    c.generation = if c.generation == u64::MAX {
        0
    } else {
        c.generation + 1
    };
    c.worker = Some(c.generation);
    c.generation
}

pub open spec fn worker_exit_spec(c: ConversationControl, g: u64) -> ConversationControl {
    if c.worker == Some(g) {
        ConversationControl { worker: None, active: false, ..c }
    } else {
        c
    }
}

/// The worker of generation `g` has finished: it frees the slot only if the
/// slot is still its own.
pub fn worker_exited(c: &mut ConversationControl, g: u64)
    ensures
        *final(c) == worker_exit_spec(*old(c), g),
{
    if c.worker == Some(g) {
        c.worker = None;
        c.active = false;
    }
}

/// The worker thread of generation `g` could not be started.
pub fn worker_spawn_failed(c: &mut ConversationControl, g: u64)
    ensures
        final(c).worker == if old(c).worker == Some(g) { None } else { old(c).worker },
        !final(c).active,
        final(c).generation == old(c).generation,
{
    if c.worker == Some(g) {
        c.worker = None;
    }
    c.active = false;
}

/// A worker that exits after a newer conversation took the slot leaves the
/// newer conversation running.
pub proof fn law_stale_worker_exit(c: ConversationControl, old_gen: u64)
    requires
        c.worker is Some,
        c.worker != Some(old_gen),
    ensures
        worker_exit_spec(c, old_gen) == c,
{
}

} // verus!
