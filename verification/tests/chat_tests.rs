use pocket_agent::audio_queue::{next_audio_generation, AudioQueue, MAX_AUDIO_QUEUE};
use pocket_agent::speech::status_announcement;
use pocket_agent::chat::{
    build_bridge_session_key, build_ui_turn_text, detect_emotion, detect_language, emotion_to_prosody, select_voice,
    split_sentences,
};
use pocket_agent::speech::{
    bridge_turn_outcome, edge_tts_bin, preview_text, preview_voice_check, sentence_job, speak_status_plan,
    speak_text_plan, tts_command_args, tts_path, ui_turn_finish, BridgeOutcome, SpeakOptions, SpeakPlan, VoiceSetup,
};
use pocket_agent::tags::{cmd_tag_commands, strip_all_cmd_tags, strip_cmd_tags};
use pocket_agent::turn::{event_name, turn_step, TurnEmit, TurnInput, TurnMode, TurnNext, TurnState};
use pocket_agent::api::client::StreamEvent;
use pocket_agent::{session_for_day, AppState};

#[test]
fn bridge_session_keys_are_namespaced() {
    assert_eq!(build_bridge_session_key("chess-app", "game-001"), "bridge:chess-app:game-001");
}

#[test]
fn ui_turn_text_appends_detected_language_instruction() {
    let text = build_ui_turn_text("hello world", "zh-CN-XiaoxiaoNeural", "", "", "");
    assert_eq!(text, "hello world Please reply in English.");
}

#[test]
fn ui_turn_text_follows_fixed_voice() {
    let text = build_ui_turn_text("你好", "zh-CN-XiaoxiaoNeural", "ja-JP-NanamiNeural", "", "aux1");
    assert_eq!(text, "你好 Please reply in Japanese.");
    let fallback = build_ui_turn_text("你好", "zh-CN-XiaoxiaoNeural", "", "", "aux2");
    assert_eq!(fallback, "你好 Please reply in Chinese.");
}

#[test]
fn bridge_keys_trim_their_parts() {
    assert_eq!(build_bridge_session_key("  app ", "\tid\n"), "bridge:app:id");
}

#[test]
fn language_detection() {
    assert_eq!(detect_language("こんにちは"), "ja");
    assert_eq!(detect_language("안녕하세요"), "ko");
    assert_eq!(detect_language("你好世界"), "zh");
    assert_eq!(detect_language("hello big world"), "en");
    assert_eq!(detect_language("你好世界 ok"), "zh");
    assert_eq!(detect_language("你好 ok fine"), "en");
    assert_eq!(detect_language("123 !"), "zh");
}

#[test]
fn voice_selection_follows_reply_language() {
    let v = select_voice("hello there friend", "zh-CN-XiaoxiaoNeural", "en-US-AriaNeural", "", "", "zh");
    assert_eq!(v, "en-US-AriaNeural");
    let v = select_voice("你好", "zh-CN-XiaoxiaoNeural", "en-US-AriaNeural", "", "aux1", "zh");
    assert_eq!(v, "zh-CN-XiaoxiaoNeural");
    let v = select_voice("bonjour mes amis", "zh-CN-XiaoxiaoNeural", "", "", "", "");
    assert_eq!(v, "zh-CN-XiaoxiaoNeural");
}

#[test]
fn sentences_split_at_ends_but_not_decimals_or_tags() {
    let (s, rest) = split_sentences("It is 2.54 cm. Next");
    assert_eq!(s, vec!["It is 2.54 cm.".to_string()]);
    assert_eq!(rest, " Next");
    let (s, rest) = split_sentences("好的！[CMD:open https://a.b] 走吧。尾");
    assert_eq!(s, vec!["好的！".to_string(), "[CMD:open https://a.b] 走吧。".to_string()]);
    assert_eq!(rest, "尾");
    let (s, rest) = split_sentences("no end yet");
    assert!(s.is_empty());
    assert_eq!(rest, "no end yet");
}

#[test]
fn emotion_detection() {
    assert_eq!(detect_emotion("太棒了"), "excited");
    assert_eq!(detect_emotion("wow!! great"), "excited");
    assert_eq!(detect_emotion("注意安全"), "serious");
    assert_eq!(detect_emotion("你好吗？"), "calm");
    assert_eq!(detect_emotion("很抱歉"), "sad");
    assert_eq!(detect_emotion("nice!"), "cheerful");
    assert_eq!(detect_emotion("plain words"), "friendly");
}

#[test]
fn prosody_of_emotions() {
    assert_eq!(emotion_to_prosody("cheerful"), ("+15%", "+30%"));
    assert_eq!(emotion_to_prosody("whisper"), ("-15%", "-30%"));
    assert_eq!(emotion_to_prosody("unknown"), ("+0%", "+0%"));
}

#[test]
fn command_tags_are_cut_and_listed() {
    assert_eq!(strip_cmd_tags("好的 [CMD:open -a Safari]  打开了"), "好的 打开了");
    assert_eq!(cmd_tag_commands("a [CMD:open x] b [CMD:ls]"), vec!["open x".to_string(), "ls".to_string()]);
    assert_eq!(strip_all_cmd_tags("Done [LOCAL_CMD run it] now [CMD:] ok"), "Done now ok");
    assert_eq!(strip_all_cmd_tags("a\n\n\n\nb"), "a\n\nb");
}

#[test]
fn turn_streams_content_and_sentences() {
    let mut t = TurnState::new(TurnMode::Ui, true);
    let a = turn_step(&mut t, TurnInput::Item(Ok(StreamEvent::Content("Hello there. How".into()))));
    assert!(matches!(a.next, TurnNext::Continue));
    assert_eq!(a.sentences, vec!["Hello there.".to_string()]);
    assert!(matches!(&a.emits[..], [TurnEmit::Delta(d)] if d == "Hello there. How"));
    let a = turn_step(&mut t, TurnInput::Item(Ok(StreamEvent::Content(" are you".into()))));
    assert!(a.sentences.is_empty());
    let a = turn_step(&mut t, TurnInput::Ended);
    assert_eq!(a.sentences, vec!["How are you".to_string()]);
    assert!(a.submission_done);
    match a.next {
        TurnNext::Done { reply, commands } => {
            assert_eq!(reply, "Hello there. How are you");
            assert!(commands.is_empty());
        },
        _ => panic!("expected the turn to be done"),
    }
}

#[test]
fn turn_flushes_reasoning_before_content() {
    let mut t = TurnState::new(TurnMode::Bridge, false);
    let a = turn_step(&mut t, TurnInput::Item(Ok(StreamEvent::Reasoning("think".into()))));
    assert!(a.emits.is_empty());
    let a = turn_step(&mut t, TurnInput::Item(Ok(StreamEvent::Content("ok".into()))));
    assert_eq!(a.emits.len(), 1);
    assert!(matches!(&a.emits[0], TurnEmit::Thinking(r) if r == "think"));
    let a = turn_step(&mut t, TurnInput::Item(Ok(StreamEvent::Reasoning("line\n".into()))));
    assert!(matches!(&a.emits[..], [TurnEmit::Thinking(r)] if r == "line\n"));
    let long = "x".repeat(60);
    let a = turn_step(&mut t, TurnInput::Item(Ok(StreamEvent::Reasoning(long.clone()))));
    assert!(matches!(&a.emits[..], [TurnEmit::Thinking(r)] if *r == long));
}

#[test]
fn turn_retries_opening_twice_then_fails() {
    let mut t = TurnState::new(TurnMode::Ui, false);
    assert!(matches!(turn_step(&mut t, TurnInput::OpenFailed("down".into())).next, TurnNext::Retry));
    assert!(matches!(turn_step(&mut t, TurnInput::OpenFailed("down".into())).next, TurnNext::Retry));
    match turn_step(&mut t, TurnInput::OpenFailed("down".into())).next {
        TurnNext::Failed(e) => assert_eq!(e, "down"),
        _ => panic!("expected failure"),
    }
}

#[test]
fn turn_reply_loses_command_tags_and_lists_them() {
    let mut t = TurnState::new(TurnMode::Ui, false);
    turn_step(&mut t, TurnInput::Item(Ok(StreamEvent::Content("好的 [CMD:open -a Safari] 打开了".into()))));
    match turn_step(&mut t, TurnInput::Ended).next {
        TurnNext::Done { reply, commands } => {
            assert_eq!(reply, "好的 打开了");
            assert_eq!(commands, vec!["open -a Safari".to_string()]);
        },
        _ => panic!("expected the turn to be done"),
    }
}

#[test]
fn superseded_turn_keeps_raw_reply() {
    let mut t = TurnState::new(TurnMode::Ui, false);
    turn_step(&mut t, TurnInput::Item(Ok(StreamEvent::Content("part [CMD:x]".into()))));
    match turn_step(&mut t, TurnInput::Superseded).next {
        TurnNext::Done { reply, commands } => {
            assert_eq!(reply, "part [CMD:x]");
            assert!(commands.is_empty());
        },
        _ => panic!("expected the turn to be done"),
    }
}

#[test]
fn error_after_data_fails_the_turn() {
    let mut t = TurnState::new(TurnMode::Ui, false);
    turn_step(&mut t, TurnInput::Item(Ok(StreamEvent::Content("a".into()))));
    match turn_step(&mut t, TurnInput::Item(Err("boom".into()))).next {
        TurnNext::Failed(e) => assert_eq!(e, "boom"),
        _ => panic!("expected failure"),
    }
}

#[test]
fn event_names_by_mode() {
    assert_eq!(event_name(TurnMode::Bridge, "thinking"), "bridge-thinking");
    assert_eq!(event_name(TurnMode::Ui, "tool-call"), "chat-tool-call");
}

#[test]
fn tts_paths() {
    assert_eq!(tts_path("mp3", 1700000000123), "/tmp/pocket-agent-tts-1700000000123.mp3");
    assert_eq!(tts_path("wav", 7), "/tmp/pocket-agent-tts-7.wav");
    assert_eq!(tts_path("ogg", 0), "/tmp/pocket-agent-tts-0.wav");
}

#[test]
fn preview_checks() {
    assert_eq!(preview_voice_check("en-US-AriaNeural", None), Ok("wav".to_string()));
    assert_eq!(preview_voice_check("en-US-AriaNeural", Some("mp3")), Ok("mp3".to_string()));
    assert_eq!(preview_voice_check("en-US-Aria", None), Err("invalid preview voice".to_string()));
    assert_eq!(preview_voice_check("en US AriaNeural", None), Err("invalid preview voice".to_string()));
    assert_eq!(preview_voice_check("", None), Err("invalid preview voice".to_string()));
    assert_eq!(preview_voice_check("en-US-AriaNeural", Some("ogg")), Err("invalid preview audio format".to_string()));
    assert_eq!(preview_text("zh-HK-HiuGaaiNeural"), "你好，我係你嘅語音智能助手，好高興可以同你一齊交流。");
    assert_eq!(preview_text("ja-JP-NanamiNeural"), "こんにちは、私はあなたの音声AIアシスタントです。あなたとお話しできてうれしいです。");
    assert_eq!(preview_text("it-IT-ElsaNeural"), "Hello, I'm your intelligent voice assistant. I'm very happy to talk with you.");
}

fn setup() -> VoiceSetup {
    VoiceSetup {
        primary: "zh-CN-XiaoxiaoNeural".into(),
        aux1: "en-US-AriaNeural".into(),
        aux2: String::new(),
        fixed: String::new(),
    }
}

#[test]
fn sentence_jobs_keep_the_first_voice() {
    let mut sticky = None;
    assert!(sentence_job(&mut sticky, "[CMD:open x]", &setup()).is_none());
    assert!(sticky.is_none());
    let j = sentence_job(&mut sticky, "Hello there!", &setup()).unwrap();
    assert_eq!(j.voice, "en-US-AriaNeural");
    assert_eq!(j.emotion, "cheerful");
    let j = sentence_job(&mut sticky, "你好。", &setup()).unwrap();
    assert_eq!(j.voice, "en-US-AriaNeural");
    assert_eq!(j.text, "你好。");
}

#[test]
fn finishing_a_ui_turn() {
    let f = ui_turn_finish("  ", true, true);
    assert_eq!(f.save.as_deref(), Some("[已被用户打断，无回复]"));
    let f = ui_turn_finish(" half ", true, true);
    assert_eq!(f.save.as_deref(), Some("half [已被用户打断]"));
    assert!(!f.end_stream);
    let f = ui_turn_finish("", false, true);
    assert!(f.save.is_none() && f.end_stream);
    let f = ui_turn_finish("All done!", false, true);
    assert_eq!(f.save.as_deref(), Some("All done!"));
    assert!(f.end_stream && f.text_only.is_none());
    let f = ui_turn_finish("All done! [CMD:ls]", false, false);
    let t = f.text_only.unwrap();
    assert_eq!(t.text, "All done!");
    assert_eq!(t.emotion, "cheerful");
    assert_eq!(t.total_chars, 9);
}

#[test]
fn bridge_turn_outcomes() {
    assert!(matches!(bridge_turn_outcome(Ok("hi".into()), true), BridgeOutcome::Silent));
    assert!(matches!(bridge_turn_outcome(Err("x".into()), true), BridgeOutcome::Silent));
    assert!(matches!(bridge_turn_outcome(Ok("  ".into()), false), BridgeOutcome::Finished));
    assert!(matches!(bridge_turn_outcome(Ok("[CMD:ls]".into()), false), BridgeOutcome::Finished));
    match bridge_turn_outcome(Ok("Your move!".into()), false) {
        BridgeOutcome::Push(j) => {
            assert_eq!(j.text, "Your move!");
            assert_eq!(j.emotion, "cheerful");
            assert_eq!(j.voice, "zh-CN-XiaoxiaoNeural");
        },
        _ => panic!("expected a push"),
    }
    match bridge_turn_outcome(Err("timeout".into()), false) {
        BridgeOutcome::Failed(e) => assert_eq!(e, "timeout"),
        _ => panic!("expected failure"),
    }
}

fn options() -> SpeakOptions {
    SpeakOptions {
        emotion: None,
        override_voice: None,
        format: None,
        primary: None,
        aux1: None,
        aux2: None,
        tts_enabled: None,
    }
}

#[test]
fn direct_speech_plans() {
    assert!(matches!(speak_text_plan(" ", &options()), SpeakPlan::Nothing));
    match speak_text_plan("你好", &options()) {
        SpeakPlan::Speak(j, f) => {
            assert_eq!(j.voice, "zh-CN-XiaoxiaoNeural");
            assert_eq!(j.emotion, "friendly");
            assert_eq!(f, "wav");
        },
        _ => panic!("expected speech"),
    }
    let off = SpeakOptions { tts_enabled: Some(false), emotion: Some("calm".into()), ..options() };
    match speak_text_plan("hello", &off) {
        SpeakPlan::TextOnly(t) => {
            assert_eq!(t.emotion, "calm");
            assert_eq!(t.total_chars, 5);
        },
        _ => panic!("expected text only"),
    }
    let status = speak_status_plan("正在思考", &SpeakOptions { override_voice: Some(String::new()), ..options() });
    assert_eq!(status, Some(("zh-CN-XiaoxiaoNeural".to_string(), "wav".to_string())));
    assert_eq!(speak_status_plan("x", &SpeakOptions { tts_enabled: Some(false), ..options() }), None);
}

#[test]
fn day_sessions() {
    let s = AppState::new();
    assert_eq!(session_for_day(&s, "2024-05-01"), "pocket-agent-2024-05-01");
}

#[test]
fn synthesiser_command_line() {
    assert_eq!(edge_tts_bin(None), "edge-tts");
    assert_eq!(edge_tts_bin(Some("/opt/bin/edge-tts".into())), "/opt/bin/edge-tts");
    let args = tts_command_args("你好", "/tmp/a.mp3", "zh-CN-XiaoxiaoNeural", "+10%", "-5%").unwrap();
    assert_eq!(
        args,
        vec![
            "--voice",
            "zh-CN-XiaoxiaoNeural",
            "--text",
            "你好",
            "--rate=+10%",
            "--volume=-5%",
            "--write-media",
            "/tmp/a.mp3"
        ]
    );
    assert_eq!(tts_command_args("  \n ", "/tmp/a.mp3", "v", "+0%", "+0%"), None);
}

#[test]
fn voice_is_chosen_by_the_first_eighty_characters() {
    let english = "hello world ".repeat(8);
    let chinese = "你好".repeat(50);
    let text = format!("{}{}", english, chinese);
    assert_eq!(detect_language(&text), "zh");
    let v = select_voice(&text, "zh-CN-XiaoxiaoNeural", "en-US-AriaNeural", "", "", "zh");
    assert_eq!(v, "en-US-AriaNeural");
    let v = select_voice(&chinese, "zh-CN-XiaoxiaoNeural", "en-US-AriaNeural", "", "", "zh");
    assert_eq!(v, "zh-CN-XiaoxiaoNeural");
}

#[test]
fn leftover_splits_to_nothing_more() {
    let (sentences, rest) = split_sentences("Hi there. It is 2.5 km! And then [CMD:open https://a.b] we");
    assert_eq!(sentences, vec!["Hi there.", "It is 2.5 km!"]);
    assert_eq!(rest, " And then [CMD:open https://a.b] we");
    let (again, rest2) = split_sentences(&rest);
    assert!(again.is_empty());
    assert_eq!(rest2, rest);
}

#[test]
fn cleaned_replies_are_tidy() {
    let r = strip_all_cmd_tags("  Sure   [CMD:open x]   thing\n\n\n\n\nOK done\nnext  [LOCAL_CMD a\n b]   end  \n\n\n");
    assert!(!r.contains("  "));
    assert!(!r.contains("\n\n\n"));
    assert_eq!(r, r.trim());
    assert_eq!(r, "Sure thing\n\nnext end");
    let r = strip_cmd_tags("x   [CMD:a]    y     z");
    assert_eq!(r, "x y z");
}

#[test]
fn status_announcements_are_silent_jobs() {
    let mut q = AudioQueue::new();
    let g = next_audio_generation(&mut q);
    let out = status_announcement(&mut q, "正在连接", &options());
    assert!(out.pause_wake);
    let job = out.job.unwrap();
    assert_eq!(job.text, "正在连接");
    assert_eq!(job.emotion, "neutral");
    assert_eq!(job.voice, "zh-CN-XiaoxiaoNeural");
    assert_eq!(job.format, "wav");
    assert_eq!(job.generation, g);
    assert!(job.silent && !job.show_text);
    assert_eq!(q.depth, 1);
    // blank text or speech off: nothing, and the queue is untouched
    assert!(status_announcement(&mut q, "   ", &options()).job.is_none());
    let mut off = options();
    off.tts_enabled = Some(false);
    assert!(status_announcement(&mut q, "hi", &off).job.is_none());
    assert_eq!(q.depth, 1);
    // a full queue skips the announcement
    while q.depth < MAX_AUDIO_QUEUE {
        assert!(status_announcement(&mut q, "busy", &options()).job.is_some());
    }
    let out = status_announcement(&mut q, "one more", &options());
    assert!(out.job.is_none() && !out.pause_wake);
    assert_eq!(q.depth, MAX_AUDIO_QUEUE);
}
