use pocket_agent::voice::record::RecordingHandle;
use pocket_agent::voice::recording::{single_shot_commit, single_shot_reserve};
use pocket_agent::voice::record::{streaming_capture_ended, streaming_start_outcome, StreamingStart};
use pocket_agent::audio_queue::{
    audio_queue_release, audio_queue_reserve, audio_queue_reset, begin_audio_submission, begin_turn,
    discard_pending_turn, is_queue_full, is_superseded, mark_submission_done, maybe_emit_audio_done,
    next_audio_generation, note_sentence_played, note_sentence_submitted, playback_finished, stop_audio_queue,
    AudioQueue, MAX_AUDIO_QUEUE,
};
use pocket_agent::voice::audio::{downmix_to_mono, loudest_per_frame};
use pocket_agent::voice::conversation::{
    conversation_settings, conversation_step, initial_state, begin_conversation, is_active, on_tts_done,
    on_tts_started, register_worker, stop_conversation, worker_exited, ChunkLevels, ConversationControl,
    ConversationEvent, Mode, StateName,
};
use pocket_agent::voice::hotkey::{
    hotkey_event, key_press, keycode_name, keycode_to_name, poll_capture, reset_hotkey_active_state,
    set_double_click_mode, start_capture, update_hotkey, HotkeyAction, HotkeyState, EVENT_FLAGS_CHANGED,
    EVENT_KEY_DOWN, EVENT_KEY_UP, EVENT_TAP_DISABLED_BY_TIMEOUT,
};
use pocket_agent::voice::record::{
    clear_vad_samples, current_owner, enroll_recording_start, owner_name, push_vad_samples, read_vad_samples,
    release_capture, start_recording, stop_recording_no_handle, take_pre_started, try_acquire_capture,
    voice_recording_start, CaptureState, DaemonStatus, VadRing, OWNER_CONVERSATION, OWNER_NONE,
    OWNER_SINGLE_SHOT, OWNER_WAKE,
};
use pocket_agent::voice::recording::{
    vad_check_wav, vad_tick, vad_timer_expired, vad_voice_result, RecordingState, TickOutcome, VadTimer,
};
use pocket_agent::voice::stt::{
    is_app_ready, mark_app_ready, next_attempt, resolve_python, stt_result_from_fields, stt_result_from_helper,
    stt_startup, AppReady, SttAttempt, SttStartup,
};
use pocket_agent::voice::venv::{join_path, marker_path, venv_pip_path, venv_python_path, venv_ready, venv_root};
use pocket_agent::voice::wake::{
    begin_wake_listener, is_wake_active, pause_wake, resume_wake, speaker_info, speaker_name_from_file,
    wake_capture_failed, decode_embedding,
    wake_check_outcome, wake_step, wake_worker_exited, WakeAction, WakeDetector, WakeEvent, WakeFlags, WakeLevels,
};
use pocket_agent::voice::wav::{i16_to_wav, recording_too_short, wav_timing};

// ── hotkey ──

#[test]
fn single_click_toggles_recording() {
    let mut s = HotkeyState::new(179);
    assert!(matches!(hotkey_event(&mut s, EVENT_KEY_DOWN, 179, 1000), HotkeyAction::StartRecording));
    assert!(s.active);
    assert!(matches!(hotkey_event(&mut s, EVENT_KEY_UP, 179, 1100), HotkeyAction::Nothing));
    assert!(matches!(hotkey_event(&mut s, EVENT_KEY_DOWN, 179, 2000), HotkeyAction::StopRecording));
    assert!(!s.active);
    assert!(matches!(hotkey_event(&mut s, EVENT_KEY_DOWN, 5, 2100), HotkeyAction::Nothing));
}

#[test]
fn fn_flag_event_counts_as_the_fn_key() {
    let mut s = HotkeyState::new(179);
    assert!(matches!(hotkey_event(&mut s, EVENT_FLAGS_CHANGED, 63, 10), HotkeyAction::StartRecording));
    assert!(s.modifier_held && s.suppress_next_keydown);
    // the duplicate key-down is swallowed
    assert!(matches!(hotkey_event(&mut s, EVENT_KEY_DOWN, 179, 11), HotkeyAction::Nothing));
    // the release only marks the key as up
    assert!(matches!(hotkey_event(&mut s, EVENT_FLAGS_CHANGED, 63, 200), HotkeyAction::Nothing));
    assert!(s.active && !s.modifier_held);
}

#[test]
fn escape_cancels_a_running_recording() {
    let mut s = HotkeyState::new(60);
    hotkey_event(&mut s, EVENT_FLAGS_CHANGED, 60, 10);
    assert!(s.active);
    assert!(matches!(hotkey_event(&mut s, EVENT_KEY_DOWN, 53, 20), HotkeyAction::CancelRecording));
    assert!(!s.active);
    assert!(matches!(hotkey_event(&mut s, EVENT_KEY_DOWN, 53, 30), HotkeyAction::Nothing));
}

#[test]
fn double_click_mode_needs_two_quick_presses() {
    let mut s = HotkeyState::new(179);
    set_double_click_mode(&mut s, true);
    assert!(matches!(hotkey_event(&mut s, EVENT_KEY_DOWN, 179, 5000), HotkeyAction::Nothing));
    assert!(matches!(hotkey_event(&mut s, EVENT_KEY_DOWN, 179, 5250), HotkeyAction::StartRecording));
    assert!(matches!(hotkey_event(&mut s, EVENT_KEY_DOWN, 179, 6000), HotkeyAction::Nothing));
    assert!(matches!(hotkey_event(&mut s, EVENT_KEY_DOWN, 179, 6300), HotkeyAction::Nothing));
    assert!(matches!(hotkey_event(&mut s, EVENT_KEY_DOWN, 179, 6599), HotkeyAction::StopRecording));
}

#[test]
fn capture_takes_the_next_key() {
    let mut s = HotkeyState::new(60);
    start_capture(&mut s);
    assert!(poll_capture(&mut s).is_none());
    // a non-modifier flags event is ignored during capture
    assert!(matches!(hotkey_event(&mut s, EVENT_FLAGS_CHANGED, 12, 1), HotkeyAction::Nothing));
    match hotkey_event(&mut s, EVENT_FLAGS_CHANGED, 63, 2) {
        HotkeyAction::Captured(k, n) => {
            assert_eq!(k, 179);
            assert_eq!(n, "fn");
        },
        _ => panic!("expected a capture"),
    }
    // the release after capturing a modifier is swallowed
    assert!(matches!(hotkey_event(&mut s, EVENT_FLAGS_CHANGED, 63, 3), HotkeyAction::Nothing));
    assert!(!s.active);
    assert_eq!(poll_capture(&mut s), Some((179, "fn".to_string())));
}

#[test]
fn capture_cancelled_by_escape_and_unnamed_keys() {
    let mut s = HotkeyState::new(60);
    start_capture(&mut s);
    assert!(matches!(hotkey_event(&mut s, EVENT_KEY_DOWN, 53, 1), HotkeyAction::CaptureCancelled));
    assert_eq!(s.captured_key, -1);
    start_capture(&mut s);
    match hotkey_event(&mut s, EVENT_KEY_DOWN, 10, 2) {
        HotkeyAction::Captured(k, n) => {
            assert_eq!(k, 10);
            assert_eq!(n, "");
        },
        _ => panic!("expected a capture"),
    }
    assert_eq!(poll_capture(&mut s), Some((10, "Key(10)".to_string())));
}

#[test]
fn key_names() {
    assert_eq!(keycode_name(60), "RightShift");
    assert_eq!(keycode_name(42), "\\\\");
    assert_eq!(keycode_name(63), "");
    assert_eq!(keycode_to_name(63), "fn");
    assert_eq!(keycode_to_name(122), "F1");
    let mut s = HotkeyState::new(60);
    assert_eq!(update_hotkey(&mut s, 49), "Space");
    assert_eq!(s.hotkey_code, 49);
    s.active = true;
    reset_hotkey_active_state(&mut s);
    assert!(!s.active);
}

#[test]
fn tap_disabled_is_reenabled_and_presses_elsewhere() {
    let mut s = HotkeyState::new(60);
    assert!(matches!(hotkey_event(&mut s, EVENT_TAP_DISABLED_BY_TIMEOUT, 0, 0), HotkeyAction::ReenableTap));
    assert!(matches!(key_press(&mut s, 60), HotkeyAction::StartRecording));
    assert!(matches!(key_press(&mut s, 53), HotkeyAction::CancelRecording));
    assert!(matches!(key_press(&mut s, 53), HotkeyAction::Nothing));
}

// ── audio queue ──

#[test]
fn queue_holds_at_most_three() {
    assert_eq!(MAX_AUDIO_QUEUE, 3);
    let mut q = AudioQueue::new();
    let first = audio_queue_reserve(&mut q);
    assert!(first.reserved && first.pause_wake);
    for _ in 1..MAX_AUDIO_QUEUE {
        let r = audio_queue_reserve(&mut q);
        assert!(r.reserved && !r.pause_wake);
    }
    assert!(is_queue_full(&q));
    assert!(!audio_queue_reserve(&mut q).reserved);
    let g = q.generation;
    for _ in 1..MAX_AUDIO_QUEUE {
        assert!(!audio_queue_release(&mut q, g));
    }
    assert!(audio_queue_release(&mut q, g));
    assert!(!audio_queue_release(&mut q, g));
    audio_queue_reserve(&mut q);
    audio_queue_reset(&mut q);
    assert_eq!(q.depth, 0);
}

#[test]
fn stale_release_is_ignored_after_stop() {
    let mut q = AudioQueue::new();
    audio_queue_reserve(&mut q);
    let old = q.generation;
    stop_audio_queue(&mut q);
    assert_eq!(q.depth, 0);
    audio_queue_reserve(&mut q);
    assert!(!audio_queue_release(&mut q, old));
    assert_eq!(q.depth, 1);
}

#[test]
fn audio_done_announced_once_after_last_sentence() {
    let mut q = AudioQueue::new();
    let g = next_audio_generation(&mut q);
    begin_audio_submission(&mut q);
    note_sentence_submitted(&mut q, g);
    note_sentence_submitted(&mut q, g);
    note_sentence_played(&mut q);
    assert!(!maybe_emit_audio_done(&mut q, g));
    mark_submission_done(&mut q);
    assert!(!maybe_emit_audio_done(&mut q, g));
    note_sentence_played(&mut q);
    assert!(maybe_emit_audio_done(&mut q, g));
    assert!(!maybe_emit_audio_done(&mut q, g));
}

#[test]
fn turns_are_superseded() {
    let mut q = AudioQueue::new();
    let t = begin_turn(&mut q);
    assert!(!is_superseded(&q, t));
    discard_pending_turn(&mut q);
    assert!(is_superseded(&q, t));
}

// ── capture ownership and recording ──

#[test]
fn capture_owner_transitions() {
    let mut c = CaptureState { owner: OWNER_NONE };
    assert_eq!(try_acquire_capture(&mut c, OWNER_WAKE), Ok(()));
    assert_eq!(current_owner(&c), OWNER_WAKE);
    assert_eq!(try_acquire_capture(&mut c, OWNER_WAKE), Ok(()));
    assert_eq!(try_acquire_capture(&mut c, OWNER_SINGLE_SHOT), Err("capture busy: wake".into()));
    release_capture(&mut c, OWNER_SINGLE_SHOT);
    assert_eq!(current_owner(&c), OWNER_WAKE);
    release_capture(&mut c, OWNER_WAKE);
    assert_eq!(current_owner(&c), OWNER_NONE);
    assert_eq!(owner_name(OWNER_CONVERSATION), "conversation");
    assert_eq!(owner_name(9), "?");
}

#[test]
fn recording_starts_depend_on_the_owner() {
    assert_eq!(voice_recording_start(OWNER_CONVERSATION), Err("连续对话进行中，无法启动单次录音".into()));
    assert_eq!(voice_recording_start(OWNER_WAKE), Ok(true));
    assert_eq!(voice_recording_start(OWNER_NONE), Ok(false));
    assert!(enroll_recording_start(OWNER_CONVERSATION).is_err());
    assert_eq!(enroll_recording_start(OWNER_WAKE), Ok(true));
}

#[test]
fn daemon_handshake() {
    assert!(take_pre_started(None).is_none());
    let d = DaemonStatus { stream_ready: true, start_ack: true };
    assert!(take_pre_started(Some(&d)).is_some());
    let mut none: Option<DaemonStatus> = None;
    assert_eq!(start_recording(&mut none, None).err().unwrap(), "audio not initialized");
    let mut daemon = Some(DaemonStatus { stream_ready: true, start_ack: false });
    assert_eq!(start_recording(&mut daemon, None).err().unwrap(), "start timeout");
    assert!(start_recording(&mut daemon, Some(Ok(()))).is_ok());
    assert!(daemon.as_ref().unwrap().start_ack);
    let mut c = CaptureState { owner: OWNER_SINGLE_SHOT };
    assert_eq!(stop_recording_no_handle(&mut c, &mut daemon, None), Err("stop timeout".into()));
    assert_eq!(c.owner, OWNER_NONE);
    assert!(!daemon.as_ref().unwrap().start_ack);
    let mut c = CaptureState { owner: OWNER_SINGLE_SHOT };
    assert_eq!(stop_recording_no_handle(&mut c, &mut daemon, Some(Ok("/tmp/r.wav".into()))), Ok("/tmp/r.wav".into()));
}

#[test]
fn vad_ring_keeps_the_latest_samples() {
    let mut r = VadRing::new();
    push_vad_samples(&mut r, &[1, 2, 3]);
    assert_eq!(read_vad_samples(&r, 2), vec![2, 3]);
    assert_eq!(read_vad_samples(&r, 10), vec![1, 2, 3]);
    let big: Vec<i16> = (0..48005).map(|i| (i % 1000) as i16).collect();
    push_vad_samples(&mut r, &big);
    let last = read_vad_samples(&r, 3);
    assert_eq!(last, vec![2, 3, 4]);
    assert_eq!(read_vad_samples(&r, 100000).len(), 48000);
    clear_vad_samples(&mut r);
    assert!(read_vad_samples(&r, 5).is_empty());
}

#[test]
fn recording_timer() {
    let s = RecordingState::new();
    assert!(s.handle.is_none() && !s.timeout_active);
    let mut t = VadTimer::new();
    for _ in 0..4 {
        assert!(vad_tick(&mut t, 500) == TickOutcome::Continue);
    }
    assert!(vad_tick(&mut t, 500) == TickOutcome::CheckVoice);
    assert!(!vad_voice_result(&mut t, true));
    assert_eq!(t.heard_speech_ms, 500);
    for _ in 0..14 {
        assert!(vad_tick(&mut t, 0) == TickOutcome::Continue);
    }
    assert!(vad_tick(&mut t, 0) == TickOutcome::Stop);
    assert!(!vad_timer_expired(&t));
    assert!(vad_check_wav(&[0; 3199], 16000).is_none());
    let w = vad_check_wav(&[0; 3200], 16000).unwrap();
    assert_eq!(w.len(), 44 + 6400);
}

// ── wav ──

#[test]
fn wav_header_and_timing() {
    let wav = i16_to_wav(&[1, -1], 16000);
    assert_eq!(&wav[0..4], b"RIFF");
    assert_eq!(&wav[4..8], &40u32.to_le_bytes());
    assert_eq!(&wav[24..28], &16000u32.to_le_bytes());
    assert_eq!(&wav[28..32], &32000u32.to_le_bytes());
    assert_eq!(&wav[44..48], &[1, 0, 0xff, 0xff]);
    let t = wav_timing(&wav);
    assert_eq!(t.sample_rate, 16000);
    assert_eq!(t.bytes_per_frame, 2);
    assert_eq!(t.data_size, 4);
    assert!(recording_too_short(&t));
    let long = i16_to_wav(&vec![0; 24000], 16000);
    assert!(!recording_too_short(&wav_timing(&long)));
    let just_short = i16_to_wav(&vec![0; 23999], 16000);
    assert!(recording_too_short(&wav_timing(&just_short)));
}

#[test]
fn downmix_averages_frames() {
    assert_eq!(downmix_to_mono(&[2, 4, -3, -4, 7], 2), vec![3, -3]);
    assert_eq!(downmix_to_mono(&[1, 2, 3], 1), vec![1, 2, 3]);
}

// ── conversation ──

fn loud() -> ChunkLevels {
    ChunkLevels { above_speech: true, below_release: false, quiet_for_noise_floor: false, above_barge_in: false, above_barge_in_release: false }
}

fn silent() -> ChunkLevels {
    ChunkLevels { above_speech: false, below_release: true, quiet_for_noise_floor: true, above_barge_in: false, above_barge_in_release: false }
}

#[test]
fn conversation_settings_are_clamped() {
    let s = conversation_settings(Some(100), Some(100), None, None, 1);
    assert_eq!(s.silence_timeout_s, 30);
    assert_eq!(s.pause_tolerance_ms, 500);
    assert!(!s.single_shot && s.barge_in_enabled);
    let d = conversation_settings(None, None, Some(true), Some(false), 2);
    assert_eq!(d.silence_timeout_s, 5);
    assert_eq!(d.pause_tolerance_ms, 1500);
    assert!(d.single_shot && !d.barge_in_enabled);
}

#[test]
fn utterance_goes_to_transcription_after_a_pause() {
    let s = conversation_settings(None, Some(500), None, None, 1);
    let mut st = initial_state(&s, 16000);
    let speech = vec![100i16; 8000];
    let a = conversation_step(&s, &mut st, ConversationEvent::AudioChunk { samples: speech.clone(), sample_rate: 16000, levels: loud(), now_ms: 0 });
    assert!(a.transcribe.is_none() && !a.end);
    let quiet = vec![0i16; 8000];
    let a = conversation_step(&s, &mut st, ConversationEvent::AudioChunk { samples: quiet, sample_rate: 16000, levels: silent(), now_ms: 500 });
    let req = a.transcribe.expect("the utterance is transcribed");
    assert_eq!(req.samples.len(), 16000);
    assert_eq!(req.sample_rate, 16000);
    assert!(a.announce == Some(StateName::Transcribing));
    assert!(st.mode == Mode::Transcribing);
    let a = conversation_step(&s, &mut st, ConversationEvent::SttResult { has_text: true, now_ms: 600 });
    assert!(a.announce == Some(StateName::Speaking));
    let a = conversation_step(&s, &mut st, ConversationEvent::TtsDone);
    assert!(a.announce == Some(StateName::Listening));
    assert!(st.mode == Mode::Listening);
}

#[test]
fn quiet_conversation_ends() {
    let s = conversation_settings(Some(2), None, None, None, 1);
    let mut st = initial_state(&s, 16000);
    let quiet = vec![0i16; 16000];
    let a = conversation_step(&s, &mut st, ConversationEvent::AudioChunk { samples: quiet.clone(), sample_rate: 16000, levels: silent(), now_ms: 0 });
    assert!(!a.end && a.feed_noise_floor);
    let a = conversation_step(&s, &mut st, ConversationEvent::AudioChunk { samples: quiet, sample_rate: 16000, levels: silent(), now_ms: 1000 });
    assert!(a.end);
    let b = conversation_step(&s, &mut st, ConversationEvent::Stop);
    assert!(b.end);
}

#[test]
fn conversation_slot() {
    let mut c = ConversationControl::new();
    assert!(!is_active(&c));
    assert_eq!(begin_conversation(&mut c, OWNER_WAKE), Ok(true));
    assert!(is_active(&c));
    assert_eq!(begin_conversation(&mut c, OWNER_NONE), Err("conversation already active".into()));
    let g1 = register_worker(&mut c);
    assert!(on_tts_started(&c) && on_tts_done(&c) && stop_conversation(&c));
    let g2 = register_worker(&mut c);
    worker_exited(&mut c, g1);
    assert!(is_active(&c));
    worker_exited(&mut c, g2);
    assert!(!is_active(&c));
    let mut d = ConversationControl::new();
    assert_eq!(begin_conversation(&mut d, OWNER_SINGLE_SHOT), Err("单次录音进行中，无法启动连续对话".into()));
    assert!(!is_active(&d));
}

// ── wake word ──

fn speech_levels() -> WakeLevels {
    WakeLevels { above_speech: true, below_release: false, quiet_for_noise_floor: false }
}

fn quiet_levels() -> WakeLevels {
    WakeLevels { above_speech: false, below_release: true, quiet_for_noise_floor: true }
}

fn chunk(n: usize, value: i16, levels: WakeLevels) -> WakeEvent {
    WakeEvent::Chunk { raw: vec![value; n], channels: 1, sample_rate: 16000, resampled: vec![value; n], levels }
}

#[test]
fn wake_flags() {
    let mut f = WakeFlags { active: false, paused: false };
    assert_eq!(begin_wake_listener(&mut f, true, false), Err("No enrolled voiceprint. Record a wake word first.".into()));
    assert!(!is_wake_active(&f));
    assert_eq!(begin_wake_listener(&mut f, true, true), Ok(()));
    assert_eq!(begin_wake_listener(&mut f, true, true), Err("wake listener already active".into()));
    pause_wake(&mut f);
    assert!(f.paused);
    resume_wake(&mut f);
    assert!(!f.paused);
    assert_eq!(wake_capture_failed(&mut f, "no device"), "mic capture: no device");
    assert!(!f.active);
    f.paused = true;
    wake_worker_exited(&mut f);
    assert!(!f.active && !f.paused);
}

#[test]
fn silence_sends_nothing_and_speech_is_checked() {
    let mut d = WakeDetector::new();
    let (a, feed) = wake_step(&mut d, chunk(1600, 0, quiet_levels()));
    assert!(matches!(a, WakeAction::Nothing) && feed);
    assert!(matches!(wake_step(&mut d, WakeEvent::Timeout).0, WakeAction::Nothing));
    // two 100 ms chunks of speech start buffering, with the lookback
    wake_step(&mut d, chunk(1600, 5, speech_levels()));
    assert!(!d.is_buffering);
    wake_step(&mut d, chunk(1600, 5, speech_levels()));
    assert!(d.is_buffering);
    assert_eq!(d.audio_buf.len(), 1600 * 3);
    for _ in 0..8 {
        wake_step(&mut d, chunk(1600, 5, speech_levels()));
    }
    // 1.5 s of silence ends the stretch, which is long enough to send
    let mut sent = None;
    for _ in 0..15 {
        if let (WakeAction::Check(v), _) = wake_step(&mut d, chunk(1600, 0, quiet_levels())) {
            sent = Some(v);
        }
    }
    let v = sent.expect("the stretch is sent");
    assert!(v.len() >= 12800);
    assert!(!d.is_buffering && d.audio_buf.is_empty() && d.pre_buf.is_empty());
}

#[test]
fn pause_forgets_and_timeout_flushes() {
    let mut d = WakeDetector::new();
    wake_step(&mut d, chunk(3200, 5, speech_levels()));
    assert!(d.is_buffering);
    match wake_step(&mut d, WakeEvent::Timeout).0 {
        WakeAction::Check(v) => assert_eq!(v.len(), 3200),
        _ => panic!("expected a flush"),
    }
    wake_step(&mut d, chunk(3200, 5, speech_levels()));
    wake_step(&mut d, WakeEvent::Paused);
    assert!(d.audio_buf.is_empty() && d.pre_buf.is_empty() && !d.is_buffering);
}

#[test]
fn wake_trigger_cooldown() {
    let mut d = WakeDetector::new();
    assert!(!wake_check_outcome(&mut d, true, true, false, 100));
    assert!(wake_check_outcome(&mut d, true, true, true, 100));
    assert!(!wake_check_outcome(&mut d, true, true, true, 1599));
    assert!(wake_check_outcome(&mut d, true, true, true, 1600));
}

#[test]
fn wake_only_mode_needs_no_voiceprint() {
    let mut f = WakeFlags { active: false, paused: false };
    assert_eq!(begin_wake_listener(&mut f, false, false), Ok(()));
    assert!(is_wake_active(&f));
    let mut d = WakeDetector::new();
    // without verification the phrase alone triggers
    assert!(wake_check_outcome(&mut d, false, false, true, 100));
    // with it, another voice does not
    let mut d = WakeDetector::new();
    assert!(!wake_check_outcome(&mut d, true, false, true, 100));
}

#[test]
fn embeddings_decode_from_base64() {
    assert_eq!(decode_embedding("AACAPw=="), Ok(vec![0, 0, 128, 63]));
    let e = decode_embedding("not base64!").unwrap_err();
    assert!(e.starts_with("base64 decode failed: "));
}

#[test]
fn voiceprint_files() {
    assert_eq!(speaker_name_from_file("Me.bin"), Some("Me".to_string()));
    assert_eq!(speaker_name_from_file("a.b.bin"), Some("a.b".to_string()));
    assert_eq!(speaker_name_from_file(".bin"), None);
    assert_eq!(speaker_name_from_file("Me.wake.npy"), None);
}

// ── speech to text and the environment ──

#[test]
fn stt_results() {
    let r = stt_result_from_fields(None, None);
    assert_eq!((r.text.as_str(), r.language.as_str()), ("", "zh"));
    let r = stt_result_from_helper("", None);
    assert_eq!((r.text.as_str(), r.language.as_str()), ("", ""));
    let r = stt_result_from_helper("hello", None);
    assert_eq!((r.text.as_str(), r.language.as_str()), ("hello", "zh"));
    let r = stt_result_from_helper("  hello there \n", None);
    assert_eq!((r.text.as_str(), r.language.as_str()), ("hello there", "zh"));
    let r = stt_result_from_helper(" \n\t", None);
    assert_eq!((r.text.as_str(), r.language.as_str()), ("", ""));
    let r = stt_result_from_helper("{...}", Some((Some("hi".into()), Some("en".into()))));
    assert_eq!((r.text.as_str(), r.language.as_str()), ("hi", "en"));
    assert!(next_attempt(SttAttempt::Server) == SttAttempt::ServerRetry);
    assert!(next_attempt(SttAttempt::ServerRetry) == SttAttempt::Helper);
    assert!(next_attempt(SttAttempt::Helper) == SttAttempt::GiveUp);
    let mut a = AppReady { ready: false };
    assert!(!is_app_ready(&a));
    mark_app_ready(&mut a);
    assert!(is_app_ready(&a));
}

#[test]
fn stt_server_start() {
    assert_eq!(resolve_python(Some("/p".into()), "/v", false), Some("/p".into()));
    assert_eq!(resolve_python(None, "/v", true), Some("/v".into()));
    assert_eq!(resolve_python(None, "/v", false), None);
    assert!(matches!(stt_startup(true, false, "s.py", None, None), SttStartup::AlreadyRunning));
    assert!(matches!(stt_startup(false, false, "s.py", None, None), SttStartup::NoScript));
    assert!(matches!(stt_startup(false, true, "s.py", None, None), SttStartup::WaitForVenv));
    match stt_startup(false, true, "s.py", Some("py".into()), None) {
        SttStartup::Spawn { program, args } => {
            assert_eq!(program, "py");
            assert_eq!(args, vec!["s.py", "--port", "8651", "--model", "base"]);
        },
        _ => panic!("expected a spawn"),
    }
}

#[test]
fn environment_paths() {
    assert_eq!(venv_root("/home/u"), "/home/u/.pocket-agent/venv");
    assert_eq!(venv_root("/home/u/"), "/home/u/.pocket-agent/venv");
    assert_eq!(venv_root(""), ".pocket-agent/venv");
    assert_eq!(venv_python_path("/h"), "/h/.pocket-agent/venv/bin/python3");
    assert_eq!(venv_pip_path("/h"), "/h/.pocket-agent/venv/bin/pip");
    assert_eq!(marker_path("/h"), "/h/.pocket-agent/.venv-ready");
    assert_eq!(join_path("a", "b"), "a/b");
    assert!(venv_ready(true, true));
    assert!(!venv_ready(true, false));
}

#[test]
fn playback_end_releases_and_announces_the_last_sentence() {
    let mut q = AudioQueue::new();
    let g = next_audio_generation(&mut q);
    begin_audio_submission(&mut q);
    audio_queue_reserve(&mut q);
    audio_queue_reserve(&mut q);
    note_sentence_submitted(&mut q, g);
    mark_submission_done(&mut q);
    // A silent sentence gives its place back but announces nothing.
    let d = playback_finished(&mut q, g, true);
    assert!(!d.resume_wake && !d.audio_done);
    assert_eq!(q.depth, 1);
    // The last spoken one empties the queue and ends the turn's audio.
    let d = playback_finished(&mut q, g, false);
    assert!(d.resume_wake && d.audio_done);
    assert_eq!(q.depth, 0);
}

#[test]
fn playback_end_of_a_stale_generation_changes_nothing_of_the_new_one() {
    let mut q = AudioQueue::new();
    let old = next_audio_generation(&mut q);
    audio_queue_reserve(&mut q);
    stop_audio_queue(&mut q);
    let g = next_audio_generation(&mut q);
    begin_audio_submission(&mut q);
    audio_queue_reserve(&mut q);
    note_sentence_submitted(&mut q, g);
    mark_submission_done(&mut q);
    let d = playback_finished(&mut q, old, false);
    assert!(!d.resume_wake && !d.audio_done);
    assert_eq!(q.depth, 1);
}

#[test]
fn loudest_sample_of_each_frame() {
    assert_eq!(loudest_per_frame(&[1, -5, 3, 2, 7, -7], 2), vec![-5, 3, 7]);
    assert_eq!(loudest_per_frame(&[4, -2, 9], 1), vec![4, -2, 9]);
    assert_eq!(loudest_per_frame(&[1, 2, 3, 4, 5], 2), vec![2, 4]);
    assert_eq!(loudest_per_frame(&[0, 0, -32768, 10], 2), vec![0, -32768]);
}

#[test]
fn speaker_listing_entries() {
    let i = speaker_info("Me.bin", "2024-05-01T10:00:00Z".into()).unwrap();
    assert_eq!((i.name.as_str(), i.enrolled_at.as_str()), ("Me", "2024-05-01T10:00:00Z"));
    assert!(speaker_info("Me.wake.txt", String::new()).is_none());
    assert!(speaker_info(".bin", String::new()).is_none());
}

#[test]
fn overflowing_push_keeps_the_latest_samples() {
    let mut r = VadRing::new();
    let samples: Vec<i16> = (0..96001u32).map(|i| (i % 30000) as i16).collect();
    push_vad_samples(&mut r, &samples);
    let out = read_vad_samples(&r, 48000);
    assert_eq!(out, samples[96001 - 48000..].to_vec());
    let mut r = VadRing::new();
    push_vad_samples(&mut r, &samples[..100]);
    push_vad_samples(&mut r, &samples[100..]);
    assert_eq!(read_vad_samples(&r, 48000), samples[96001 - 48000..].to_vec());
}

#[test]
fn single_shot_start_steps() {
    // a free microphone is taken, and a started recording is stored
    let mut st = RecordingState::new();
    let mut c = CaptureState { owner: OWNER_NONE };
    assert_eq!(single_shot_reserve(&st, &mut c), Ok(true));
    assert_eq!(current_owner(&c), OWNER_SINGLE_SHOT);
    assert_eq!(single_shot_commit(&mut st, &mut c, Ok(RecordingHandle { _priv: () })), Ok(true));
    assert!(st.handle.is_some());
    assert_eq!(current_owner(&c), OWNER_SINGLE_SHOT);
    // with a recording stored, nothing happens
    assert_eq!(single_shot_reserve(&st, &mut c), Ok(false));
    assert_eq!(single_shot_commit(&mut st, &mut c, Err("x".into())), Ok(false));
    assert_eq!(current_owner(&c), OWNER_SINGLE_SHOT);
    // a failed start gives the microphone back
    let mut st = RecordingState::new();
    let mut c = CaptureState { owner: OWNER_NONE };
    assert_eq!(single_shot_reserve(&st, &mut c), Ok(true));
    assert_eq!(single_shot_commit(&mut st, &mut c, Err("start timeout".into())), Err("start timeout".into()));
    assert_eq!(current_owner(&c), OWNER_NONE);
    assert!(st.handle.is_none());
    // a busy microphone is refused
    let mut c = CaptureState { owner: OWNER_WAKE };
    assert_eq!(single_shot_reserve(&st, &mut c), Err("capture busy: wake".into()));
    assert_eq!(current_owner(&c), OWNER_WAKE);
}

#[test]
fn streaming_capture_lifecycle() {
    let mut c = CaptureState { owner: OWNER_WAKE };
    let (tx, _rx) = std::sync::mpsc::channel::<()>();
    let h = streaming_start_outcome(&mut c, OWNER_WAKE, StreamingStart::Ready(48000, 2), tx).unwrap();
    assert_eq!((h.sample_rate, h.channels), (48000, 2));
    assert_eq!(current_owner(&c), OWNER_WAKE);
    let (tx, _rx) = std::sync::mpsc::channel::<()>();
    assert_eq!(
        streaming_start_outcome(&mut c, OWNER_WAKE, StreamingStart::Failed("no input device".into()), tx).err(),
        Some("no input device".to_string())
    );
    assert_eq!(current_owner(&c), OWNER_WAKE);
    let (tx, _rx) = std::sync::mpsc::channel::<()>();
    assert_eq!(
        streaming_start_outcome(&mut c, OWNER_WAKE, StreamingStart::TimedOut, tx).err(),
        Some("streaming start timeout".to_string())
    );
    assert_eq!(current_owner(&c), OWNER_NONE);
    let mut c = CaptureState { owner: OWNER_CONVERSATION };
    let (tx, _rx) = std::sync::mpsc::channel::<()>();
    assert_eq!(
        streaming_start_outcome(&mut c, OWNER_CONVERSATION, StreamingStart::SpawnFailed("oom".into()), tx).err(),
        Some("spawn: oom".to_string())
    );
    assert_eq!(current_owner(&c), OWNER_NONE);
    // the thread's end releases, forgets the samples and zeroes the level
    let mut c = CaptureState { owner: OWNER_WAKE };
    let mut r = VadRing::new();
    push_vad_samples(&mut r, &[1, 2, 3]);
    assert_eq!(streaming_capture_ended(&mut c, &mut r, OWNER_WAKE), 0);
    assert_eq!(current_owner(&c), OWNER_NONE);
    assert!(read_vad_samples(&r, 10).is_empty());
}
