use pocket_agent::config::{
    build_voice_hint, default_pause_tolerance_ms, default_true, default_ui_lang, get_api_agent, get_api_key,
    get_api_url, rollback_message, settings_apply_plan, ui_voice_hint, voice_to_language, LiveSettings,
};
use pocket_agent::history::{escape_js, generate_html, ChatMessage};
use pocket_agent::settings::{
    asset_to_store, decode_data_uri, delete_asset, encode_data_uri, ensure_asset_key, get_asset, next_revision,
    parse_u64, validate, ConfigFields, MAX_ASSET_BYTES,
};

fn default_fields() -> ConfigFields {
    ConfigFields {
        character_skin: "default-css".into(),
        dialog_style: "bubble".into(),
        tts_format: "wav".into(),
        tts_primary_voice: "zh-CN-XiaoxiaoNeural".into(),
        fixed_lang: String::new(),
        ui_lang: default_ui_lang(),
        hotkey_code: 60,
        hotkey_name: "RightShift".into(),
        silence_timeout_secs: 5,
        pause_tolerance_ms: default_pause_tolerance_ms(),
        last_enrolled_speaker: String::new(),
        volume_in_range: (0.0f32..=1.0).contains(&0.8f32),
        thresholds_in_range: true,
    }
}

#[test]
fn validates_defaults_and_rejects_bad_ranges() {
    assert!(validate(&default_fields()).is_ok());
    let mut config = default_fields();
    config.volume_in_range = (0.0f32..=1.0).contains(&2.0f32);
    assert!(validate(&config).is_err());
}

#[test]
fn accepts_supported_asset_and_rejects_large_or_unknown_data() {
    let png = "data:image/png;base64,iVBORw0KGgo=";
    assert!(decode_data_uri(png).is_ok());
    assert!(decode_data_uri("data:text/plain;base64,SGk=").is_err());
}

#[test]
fn validation_errors_name_the_rule() {
    let mut c = default_fields();
    c.character_skin = "pixel".into();
    assert_eq!(validate(&c), Err("invalid character skin".into()));
    let mut c = default_fields();
    c.dialog_style = "card".into();
    assert_eq!(validate(&c), Err("invalid dialog style".into()));
    let mut c = default_fields();
    c.tts_format = "ogg".into();
    assert_eq!(validate(&c), Err("invalid TTS format".into()));
    let mut c = default_fields();
    c.tts_primary_voice = "  ".into();
    assert_eq!(validate(&c), Err("primary voice is required".into()));
    let mut c = default_fields();
    c.fixed_lang = "aux3".into();
    assert_eq!(validate(&c), Err("invalid fixed language selection".into()));
    let mut c = default_fields();
    c.ui_lang = "it".into();
    assert_eq!(validate(&c), Err("invalid UI language".into()));
    let mut c = default_fields();
    c.hotkey_code = 256;
    assert_eq!(validate(&c), Err("invalid hotkey".into()));
    let mut c = default_fields();
    c.hotkey_name = "x".repeat(65);
    assert_eq!(validate(&c), Err("invalid hotkey".into()));
    let mut c = default_fields();
    c.silence_timeout_secs = 2;
    assert_eq!(validate(&c), Err("one or more voice thresholds are out of range".into()));
    let mut c = default_fields();
    c.pause_tolerance_ms = 5001;
    assert_eq!(validate(&c), Err("one or more voice thresholds are out of range".into()));
    let mut c = default_fields();
    c.last_enrolled_speaker = "Me!".into();
    assert_eq!(validate(&c), Err("invalid enrolled speaker name".into()));
    let mut c = default_fields();
    c.last_enrolled_speaker = "me_2-b".into();
    c.fixed_lang = "aux2".into();
    c.ui_lang = "es".into();
    assert_eq!(validate(&c), Ok(()));
}

#[test]
fn data_uri_errors() {
    assert_eq!(decode_data_uri("no comma here").err().unwrap(), "asset must be a data URI");
    assert_eq!(decode_data_uri("data:image/png,AAAA").err().unwrap(), "asset must be base64 encoded");
    assert_eq!(
        decode_data_uri("data:text/plain;base64,SGk=").err().unwrap(),
        "unsupported asset type: text/plain"
    );
    let bad = decode_data_uri("data:image/png;base64,!!!").err().unwrap();
    assert!(bad.starts_with("invalid asset data: "));
    assert!(bad.len() > "invalid asset data: ".len());
    let (mime, data) = decode_data_uri("data:image/gif;base64,SGk=").unwrap();
    assert_eq!(mime, "image/gif");
    assert_eq!(data, b"Hi".to_vec());
}

#[test]
fn oversized_asset_is_refused() {
    let big = vec![0u8; MAX_ASSET_BYTES + 3];
    let uri = encode_data_uri("image/png", &big);
    assert_eq!(decode_data_uri(&uri).err().unwrap(), "asset exceeds the 10 MB limit");
}

#[test]
fn assets_go_out_as_data_uris() {
    assert_eq!(encode_data_uri("image/png", b"Hi"), "data:image/png;base64,SGk=");
    let uri = encode_data_uri("image/webp", &[1, 2, 3, 250]);
    let (mime, data) = decode_data_uri(&uri).unwrap();
    assert_eq!(mime, "image/webp");
    assert_eq!(data, vec![1, 2, 3, 250]);
}

#[test]
fn asset_keys() {
    assert!(ensure_asset_key("avatar_image").is_ok());
    assert!(ensure_asset_key("avatar_gif").is_ok());
    assert_eq!(ensure_asset_key("wallpaper"), Err("unknown settings asset".into()));
}

#[test]
fn revisions() {
    assert_eq!(next_revision(None), 1);
    assert_eq!(next_revision(Some("41")), 42);
    assert_eq!(next_revision(Some("+7")), 8);
    assert_eq!(next_revision(Some("junk")), 1);
    assert_eq!(next_revision(Some("18446744073709551615")), u64::MAX);
    assert_eq!(parse_u64("18446744073709551616"), None);
    assert_eq!(parse_u64(""), None);
    assert_eq!(parse_u64("+"), None);
    assert_eq!(parse_u64("007"), Some(7));
    assert_eq!(parse_u64(" 7"), None);
}

#[test]
fn voice_languages() {
    assert_eq!(voice_to_language("ko-KR-SunHiNeural"), Some("Korean (한국어)"));
    assert_eq!(voice_to_language("it-IT-ElsaNeural"), None);
    assert_eq!(voice_to_language(""), None);
}

#[test]
fn voice_hint_lists_installed_languages() {
    let hint = build_voice_hint("zh-CN-XiaoxiaoNeural", "en-US-AriaNeural", "zh-TW-HsiaoChenNeural", "zh", "", false);
    assert!(hint.starts_with("[SYSTEM INSTRUCTION - MANDATORY]\n"));
    assert!(hint.contains("You have TTS voices installed for these languages: Chinese (中文), English.\n"));
    assert!(hint.contains("- Default response language: Chinese (中文). Use this"));
    assert!(hint.contains("{ }"));
    assert!(!hint.contains("LOCAL COMMAND EXECUTION"));
    assert!(hint.ends_with("Always obey.\n\n"));
    let with_cmds = build_voice_hint("fr-FR-DeniseNeural", "", "", "zh", "", true);
    assert!(with_cmds.contains("these languages: French (Français).\n"));
    assert!(with_cmds.contains("respond in French (Français) and briefly explain"));
    assert!(with_cmds.ends_with("[CMD:code /path/to/project]."));
    let unknown = build_voice_hint("it-IT-ElsaNeural", "", "", "zh", "", false);
    assert!(unknown.contains("these languages: Chinese (中文).\n"));
}

#[test]
fn ui_hint_adds_same_language_rule_without_fixed_language() {
    let h = ui_voice_hint("base", "");
    assert!(h.starts_with("base\n\nIMPORTANT: You MUST respond in the SAME language the user writes in."));
    assert_eq!(ui_voice_hint("base", "aux1"), "base");
}

#[test]
fn environment_settings() {
    assert_eq!(get_api_url(None), "http://localhost:8642");
    assert_eq!(get_api_url(Some(String::new())), "http://localhost:8642");
    assert_eq!(get_api_url(Some("http://h:1".into())), "http://h:1");
    assert_eq!(get_api_key(Some(String::new())), None);
    assert_eq!(get_api_key(Some("k".into())), Some("k".into()));
    assert_eq!(get_api_agent(None), None);
    assert!(default_true());
    assert_eq!(default_pause_tolerance_ms(), 1500);
    assert_eq!(default_ui_lang(), "en");
}

#[test]
fn applying_saved_settings() {
    let old = LiveSettings {
        hotkey_code: 60,
        double_click_to_record: false,
        wake_word_enabled: false,
        last_enrolled_speaker: "Me".into(),
    };
    let same = LiveSettings { last_enrolled_speaker: "Me".into(), ..old };
    let p = settings_apply_plan(&old, &same, false);
    assert_eq!(p.update_hotkey, None);
    assert_eq!(p.set_double_click, None);
    assert!(!p.restart_wake && !p.start_wake);
    let old = LiveSettings { hotkey_code: 60, double_click_to_record: false, wake_word_enabled: false, last_enrolled_speaker: "Me".into() };
    let new = LiveSettings { hotkey_code: 179, double_click_to_record: true, wake_word_enabled: true, last_enrolled_speaker: "Me".into() };
    let p = settings_apply_plan(&old, &new, false);
    assert_eq!(p.update_hotkey, Some(179));
    assert_eq!(p.set_double_click, Some(true));
    assert!(p.restart_wake && p.start_wake);
    let off = LiveSettings { hotkey_code: 60, double_click_to_record: false, wake_word_enabled: false, last_enrolled_speaker: "You".into() };
    let p = settings_apply_plan(&old, &off, false);
    assert!(p.restart_wake && !p.start_wake);
    assert_eq!(rollback_message("no mic"), "apply settings failed; changes rolled back: no mic");
}

#[test]
fn js_escaping() {
    assert_eq!(escape_js("it's a\\b\nc\rd"), "it\\'s a\\\\b\\nc\\rd");
    assert_eq!(escape_js("plain"), "plain");
}

#[test]
fn history_page_embeds_messages_and_avatar() {
    let messages = vec![
        ChatMessage { timestamp: "t2".into(), role: "assistant".into(), content: "it's".into() },
        ChatMessage { timestamp: "t1".into(), role: "user".into(), content: "hi\nthere".into() },
    ];
    let html = generate_html(&messages, "");
    assert!(html.starts_with("<!DOCTYPE html>"));
    assert!(html.contains("{ts:'t2',role:'assistant',content:'it\\'s'},{ts:'t1',role:'user',content:'hi\\nthere'}];"));
    assert!(html.contains("const AVATAR_HTML = `🤖"));
    let with_avatar = generate_html(&[], "data:image/png;base64,AA==");
    assert!(with_avatar.contains("<img src=\"data:image/png;base64,AA==\" alt=\"avatar\">"));
    assert!(with_avatar.ends_with("</html>"));
}

#[test]
fn reading_an_asset_gives_its_data_uri() {
    let stored = Some(("image/png".to_string(), vec![0x89u8, b'P', b'N', b'G']));
    assert_eq!(get_asset("avatar_image", stored), Ok(Some("data:image/png;base64,iVBORw==".to_string())));
    assert_eq!(get_asset("avatar_gif", None), Ok(None));
    assert_eq!(get_asset("wallpaper", None), Err("unknown settings asset".to_string()));
}

#[test]
fn storing_an_asset_checks_key_then_data() {
    let (mime, data) = asset_to_store("avatar_gif", "data:image/gif;base64,R0lGOA==").unwrap();
    assert_eq!(mime, "image/gif");
    assert_eq!(data, b"GIF8".to_vec());
    assert_eq!(asset_to_store("theme", "data:image/gif;base64,R0lGOA=="), Err("unknown settings asset".to_string()));
    assert!(asset_to_store("avatar_image", "data:text/plain;base64,aGk=").is_err());
    assert!(asset_to_store("avatar_image", "not a data uri").is_err());
}

#[test]
fn deleting_an_asset_bumps_the_revision() {
    assert_eq!(delete_asset("avatar_image", Some("41")), Ok(42));
    assert_eq!(delete_asset("avatar_image", None), Ok(1));
    assert_eq!(delete_asset("avatar_gif", Some("garbage")), Ok(1));
    assert_eq!(delete_asset("other", Some("41")), Err("unknown settings asset".to_string()));
}

#[test]
fn encoded_asset_decodes_back() {
    let bytes: Vec<u8> = (0u8..=255).collect();
    let uri = encode_data_uri("image/webp", &bytes);
    assert_eq!(decode_data_uri(&uri), Ok(("image/webp".to_string(), bytes)));
}

/// Reads the body of a single-quoted script string the way a browser does,
/// for the four escapes the page uses.
fn read_js_quoted(e: &str) -> Option<String> {
    let mut out = String::new();
    let mut it = e.chars();
    while let Some(c) = it.next() {
        match c {
            '\\' => match it.next()? {
                '\\' => out.push('\\'),
                '\'' => out.push('\''),
                'n' => out.push('\n'),
                'r' => out.push('\r'),
                _ => return None,
            },
            '\'' | '\n' | '\r' => return None,
            c => out.push(c),
        }
    }
    Some(out)
}

#[test]
fn escaped_text_reads_back() {
    for s in ["it's", "a\\'b", "line\nbreak\r\n", "\\\\'", "", "中文 'quoted'"] {
        assert_eq!(read_js_quoted(&escape_js(s)), Some(s.to_string()));
    }
}

#[test]
fn stored_asset_reads_back_as_written() {
    let uri = "data:image/png;base64,iVBORw0KGgo=";
    let (mime, data) = asset_to_store("avatar_image", uri).unwrap();
    assert_eq!(get_asset("avatar_image", Some((mime, data))), Ok(Some(uri.to_string())));
}

#[test]
fn read_asset_stores_back_unchanged() {
    let bytes: Vec<u8> = vec![0, 1, 2, 250, 251, 252, 253];
    let uri = get_asset("avatar_gif", Some(("image/gif".to_string(), bytes.clone()))).unwrap().unwrap();
    assert_eq!(asset_to_store("avatar_gif", &uri), Ok(("image/gif".to_string(), bytes)));
}
