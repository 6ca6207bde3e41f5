//! Settings that shape the assistant's behaviour: the system instruction
//! that keeps replies speakable and in an installed language, where the
//! server is, the defaults of the stored settings, and what a saved change
//! has to re-apply.
use vstd::prelude::*;

use crate::text::{append_chars, before_dash, before_dash_exec, chars_eq, chars_of, is_lit, string_of};

verus! {

/// The language a voice speaks, by the part of its name before the first `-`.
pub open spec fn voice_language_spec(voice: Seq<char>) -> Option<Seq<char>> {
    let lang = before_dash(voice);
    if lang == "zh"@ {
        Some("Chinese (中文)"@)
    } else if lang == "ja"@ {
        Some("Japanese (日本語)"@)
    } else if lang == "ko"@ {
        Some("Korean (한국어)"@)
    } else if lang == "en"@ {
        Some("English"@)
    } else if lang == "fr"@ {
        Some("French (Français)"@)
    } else if lang == "de"@ {
        Some("German (Deutsch)"@)
    } else if lang == "es"@ {
        Some("Spanish (Español)"@)
    } else {
        None
    }
}

pub open spec fn static_opt_view(o: Option<&'static str>) -> Option<Seq<char>> {
    match o {
        Some(s) => Some(s@),
        None => None,
    }
}

pub fn voice_to_language(voice: &str) -> (r: Option<&'static str>)
    ensures
        static_opt_view(r) == voice_language_spec(voice@),
{
    let lang = before_dash_exec(&chars_of(voice));
    if is_lit(&lang, "zh") {
        Some("Chinese (中文)")
    } else if is_lit(&lang, "ja") {
        Some("Japanese (日本語)")
    } else if is_lit(&lang, "ko") {
        Some("Korean (한국어)")
    } else if is_lit(&lang, "en") {
        Some("English")
    } else if is_lit(&lang, "fr") {
        Some("French (Français)")
    } else if is_lit(&lang, "de") {
        Some("German (Deutsch)")
    } else if is_lit(&lang, "es") {
        Some("Spanish (Español)")
    } else {
        None
    }
}

/// Adds the language of `voice` to `acc` unless the voice is unset, has no
/// known language, or its language is listed already.
pub open spec fn add_language(acc: Seq<Seq<char>>, voice: Seq<char>) -> Seq<Seq<char>> {
    if voice.len() == 0 {
        acc
    } else {
        match voice_language_spec(voice) {
            Some(n) => if acc.contains(n) {
                acc
            } else {
                acc.push(n)
            },
            None => acc,
        }
    }
}

/// The languages of the configured voices, each once, in the voices' order.
pub open spec fn installed_languages(primary: Seq<char>, aux1: Seq<char>, aux2: Seq<char>) -> Seq<Seq<char>> {
    add_language(add_language(add_language(Seq::empty(), primary), aux1), aux2)
}

/// The items of `s` separated by `, `.
pub open spec fn join_comma(s: Seq<Seq<char>>) -> Seq<char>
    decreases s.len(),
{
    if s.len() == 0 {
        Seq::empty()
    } else if s.len() == 1 {
        s[0]
    } else {
        join_comma(s.drop_last()) + ", "@ + s.last()
    }
}

pub open spec fn language_list(primary: Seq<char>, aux1: Seq<char>, aux2: Seq<char>) -> Seq<char> {
    let langs = installed_languages(primary, aux1, aux2);
    if langs.len() == 0 {
        "Chinese (中文)"@
    } else {
        join_comma(langs)
    }
}

pub open spec fn primary_language(primary: Seq<char>) -> Seq<char> {
    match voice_language_spec(primary) {
        Some(n) => n,
        None => "Chinese (中文)"@,
    }
}

/// How to ask for local commands, included when they are enabled.
pub open spec fn local_command_section() -> Seq<char> {
    "LOCAL COMMAND EXECUTION — MANDATORY:\nWhen the user asks to open, launch, or control anything on their Mac (apps, files, URLs, projects), you MUST embed a [CMD:...] tag. NEVER say you cannot do it — you CAN via shell commands.\n\nTriggers (中文 & English): \"打开/启动/运行/开个/帮我开\" \"open/launch/start/go to\" + any app, file, or URL name.\n\nFormat: [CMD:shell_command]\nCommon examples:\n- 打开浏览器/Chrome → [CMD:open -a \"Google Chrome\"]\n- 打开 Safari → [CMD:open -a Safari]\n- 打开项目 → [CMD:code /path/to/project]\n- 打开网页 → [CMD:open https://example.com]\n- 打开 Spotify → [CMD:open -a \"Spotify\"]\n- 打开终端 → [CMD:open -a Terminal]\n- 打开 Finder/文件夹 → [CMD:open /path/to/folder]\n- 清空废纸篽 → [CMD:osascript -e 'tell application \"Finder\" to empty trash']\n\nRULES:\n1. ALWAYS use [CMD:...] when the user asks to open/launch something. NEVER refuse or say you lack access.\n2. Write your natural spoken response AROUND the tag. Example: 好的，帮你打开了！[CMD:open -a \"Google Chrome\"]已经打开了哦。\n3. The command executes silently. Multiple [CMD:...] tags are allowed if the user asks for multiple things.\n4. Available apps: Chrome (\"Google Chrome\"), Safari, Spotify, Finder, Terminal, VS Code (\"Visual Studio Code\"), Notes, Calendar, Messages, Mail, System Settings, App Store, etc.\n5. Open a file/folder with default app: [CMD:open /path/to/file]. Open a project in VS Code: [CMD:code /path/to/project]."@
}

/// The system instruction sent with every turn: speak plainly, briefly and
/// only in an installed language, defaulting to the primary voice's; with
/// local commands enabled, how to ask for them.
pub open spec fn voice_hint_spec(primary: Seq<char>, aux1: Seq<char>, aux2: Seq<char>, local_commands: bool) -> Seq<char> {
    let list = language_list(primary, aux1, aux2);
    let main = primary_language(primary);
    "[SYSTEM INSTRUCTION - MANDATORY]\nYou are speaking to the user through a text-to-speech voice. Your entire response will be CONVERTED TO SPEECH and read aloud — every word must be something a human can naturally say out loud.\n\nCRITICAL RULES (you MUST follow every time):\n1. Respond in PURE SPOKEN TEXT ONLY. No markdown, no asterisks, no backticks, no code blocks, no bullet points, no numbered lists, no headers, no bold, no italic, no inline code.\n2. NO TABLES, NO GRAPHS, NO DIAGRAMS, NO CHARTS -- these cannot be read aloud. Describe relationships in plain spoken sentences instead.\n3. Keep your response CONCISE: 1-3 short sentences. Long text sounds terrible in TTS.\n4. NEVER use any symbols or special characters that don't read well: # * ` [ ] { } < > | \\ / -- and absolutely NO emoji or emoticons (:), ;), etc.). These will be read as garbled noise or cause TTS errors.\n5. If you need to mention code or technical terms, spell them out phonetically or describe them in plain spoken words.\nLANGUAGE RESTRICTION:\nYou have TTS voices installed for these languages: "@ + list + ".\n- You MUST ONLY respond in one of these languages.\n- Default response language: "@ + main + ". Use this unless the user writes to you in another installed language.\n- If the user writes in a language you do NOT have a voice for, respond in "@ + main + " and briefly explain you cannot speak that language.\n\nVIOLATION OF ANY RULE ABOVE will cause the voice output to sound broken. Always obey.\n\n"@
        + if local_commands { local_command_section() } else { Seq::empty() }
}

fn add_language_exec(acc: &mut Vec<Vec<char>>, voice: &str)
    ensures
        final(acc)@.map_values(|v: Vec<char>| v@) == add_language(old(acc)@.map_values(|v: Vec<char>| v@), voice@),
{
    let ghost before = acc@.map_values(|v: Vec<char>| v@);
    if voice.is_empty() {
        return;
    }
    match voice_to_language(voice) {
        None => {},
        Some(name) => {
            let n = chars_of(name);
            let mut i: usize = 0;
            while i < acc.len()
                invariant
                    i <= acc.len(),
                    acc@.map_values(|v: Vec<char>| v@) == before,
                    forall|j: int| 0 <= j < i ==> acc@[j]@ != n@,
                    voice_language_spec(voice@) == Some(n@),
                    voice@.len() > 0,
                decreases acc.len() - i,
            {
                if chars_eq(&acc[i], &n) {
                    assert(before[i as int] == n@);
                    assert(before.contains(n@));
                    assert(voice_language_spec(voice@) == Some(n@));
                    assert(add_language(before, voice@) == before);
                    return;
                }
                i += 1;
            }
            assert(!before.contains(n@)) by {
                if before.contains(n@) {
                    let k = choose|k: int| 0 <= k < before.len() && before[k] == n@;
                    assert(acc@[k]@ == n@);
                }
            }
            acc.push(n);
            assert(acc@.map_values(|v: Vec<char>| v@) =~= before.push(name@));
        },
    }
}

fn join_exec(items: &Vec<Vec<char>>) -> (r: Vec<char>)
    ensures
        r@ == join_comma(items@.map_values(|v: Vec<char>| v@)),
{
    let ghost s = items@.map_values(|v: Vec<char>| v@);
    let mut out: Vec<char> = Vec::new();
    let mut i: usize = 0;
    while i < items.len()
        invariant
            i <= items.len(),
            s == items@.map_values(|v: Vec<char>| v@),
            out@ == join_comma(s.take(i as int)),
        decreases items.len() - i,
    {
        assert(s.take(i + 1).drop_last() =~= s.take(i as int));
        if i > 0 {
            append_chars(&mut out, &chars_of(", "));
        } else {
            assert(Seq::<char>::empty() + s[0] =~= s[0]);
        }
        append_chars(&mut out, &items[i]);
        i += 1;
    }
    assert(s.take(items.len() as int) =~= s);
    out
}

/// Builds the system instruction for the configured voices; see
/// `voice_hint_spec`. The user's language and the fixed-language slot do
/// not change it: only the installed voices and whether local commands are
/// enabled do.
pub fn build_voice_hint(
    primary_voice: &str,
    aux1_voice: &str,
    aux2_voice: &str,
    _user_lang: &str,
    _fixed_lang: &str,
    local_commands: bool,
) -> (r: String)
    ensures
        r@ == voice_hint_spec(primary_voice@, aux1_voice@, aux2_voice@, local_commands),
{
    let mut langs: Vec<Vec<char>> = Vec::new();
    assert(langs@.map_values(|v: Vec<char>| v@) =~= Seq::<Seq<char>>::empty());
    add_language_exec(&mut langs, primary_voice);
    add_language_exec(&mut langs, aux1_voice);
    add_language_exec(&mut langs, aux2_voice);
    let list = if langs.len() == 0 {
        chars_of("Chinese (中文)")
    } else {
        join_exec(&langs)
    };
    let main = match voice_to_language(primary_voice) {
        Some(n) => chars_of(n),
        None => chars_of("Chinese (中文)"),
    };
    let mut out = chars_of("[SYSTEM INSTRUCTION - MANDATORY]\nYou are speaking to the user through a text-to-speech voice. Your entire response will be CONVERTED TO SPEECH and read aloud — every word must be something a human can naturally say out loud.\n\nCRITICAL RULES (you MUST follow every time):\n1. Respond in PURE SPOKEN TEXT ONLY. No markdown, no asterisks, no backticks, no code blocks, no bullet points, no numbered lists, no headers, no bold, no italic, no inline code.\n2. NO TABLES, NO GRAPHS, NO DIAGRAMS, NO CHARTS -- these cannot be read aloud. Describe relationships in plain spoken sentences instead.\n3. Keep your response CONCISE: 1-3 short sentences. Long text sounds terrible in TTS.\n4. NEVER use any symbols or special characters that don't read well: # * ` [ ] { } < > | \\ / -- and absolutely NO emoji or emoticons (:), ;), etc.). These will be read as garbled noise or cause TTS errors.\n5. If you need to mention code or technical terms, spell them out phonetically or describe them in plain spoken words.\nLANGUAGE RESTRICTION:\nYou have TTS voices installed for these languages: ");
    append_chars(&mut out, &list);
    append_chars(&mut out, &chars_of(".\n- You MUST ONLY respond in one of these languages.\n- Default response language: "));
    append_chars(&mut out, &main);
    append_chars(&mut out, &chars_of(". Use this unless the user writes to you in another installed language.\n- If the user writes in a language you do NOT have a voice for, respond in "));
    append_chars(&mut out, &main);
    append_chars(&mut out, &chars_of(" and briefly explain you cannot speak that language.\n\nVIOLATION OF ANY RULE ABOVE will cause the voice output to sound broken. Always obey.\n\n"));
    if local_commands {
        append_chars(&mut out, &chars_of("LOCAL COMMAND EXECUTION — MANDATORY:\nWhen the user asks to open, launch, or control anything on their Mac (apps, files, URLs, projects), you MUST embed a [CMD:...] tag. NEVER say you cannot do it — you CAN via shell commands.\n\nTriggers (中文 & English): \"打开/启动/运行/开个/帮我开\" \"open/launch/start/go to\" + any app, file, or URL name.\n\nFormat: [CMD:shell_command]\nCommon examples:\n- 打开浏览器/Chrome → [CMD:open -a \"Google Chrome\"]\n- 打开 Safari → [CMD:open -a Safari]\n- 打开项目 → [CMD:code /path/to/project]\n- 打开网页 → [CMD:open https://example.com]\n- 打开 Spotify → [CMD:open -a \"Spotify\"]\n- 打开终端 → [CMD:open -a Terminal]\n- 打开 Finder/文件夹 → [CMD:open /path/to/folder]\n- 清空废纸篽 → [CMD:osascript -e 'tell application \"Finder\" to empty trash']\n\nRULES:\n1. ALWAYS use [CMD:...] when the user asks to open/launch something. NEVER refuse or say you lack access.\n2. Write your natural spoken response AROUND the tag. Example: 好的，帮你打开了！[CMD:open -a \"Google Chrome\"]已经打开了哦。\n3. The command executes silently. Multiple [CMD:...] tags are allowed if the user asks for multiple things.\n4. Available apps: Chrome (\"Google Chrome\"), Safari, Spotify, Finder, Terminal, VS Code (\"Visual Studio Code\"), Notes, Calendar, Messages, Mail, System Settings, App Store, etc.\n5. Open a file/folder with default app: [CMD:open /path/to/file]. Open a project in VS Code: [CMD:code /path/to/project]."));
    } else {
        assert(out@ + Seq::<char>::empty() =~= out@);
    }
    string_of(&out)
}

/// The instruction of a window chat turn: the voice hint, and without a
/// fixed language an order to answer in the user's own language.
pub open spec fn ui_voice_hint_spec(hint: Seq<char>, fixed: Seq<char>) -> Seq<char> {
    if fixed.len() == 0 {
        hint + "\n\nIMPORTANT: You MUST respond in the SAME language the user writes in. If the user writes in Chinese, respond in Chinese. If the user writes in English, respond in English. Never switch languages based on previous conversation context."@
    } else {
        hint
    }
}

pub fn ui_voice_hint(hint: &str, fixed_lang: &str) -> (r: String)
    ensures
        r@ == ui_voice_hint_spec(hint@, fixed_lang@),
{
    let mut out = chars_of(hint);
    if fixed_lang.is_empty() {
        append_chars(&mut out, &chars_of("\n\nIMPORTANT: You MUST respond in the SAME language the user writes in. If the user writes in Chinese, respond in Chinese. If the user writes in English, respond in English. Never switch languages based on previous conversation context."));
    }
    string_of(&out)
}

/// A setting read from the environment counts only when it holds text.
pub open spec fn nonempty_setting(v: Option<Seq<char>>) -> Option<Seq<char>> {
    match v {
        Some(s) => if s.len() > 0 {
            Some(s)
        } else {
            None
        },
        None => None,
    }
}

pub open spec fn string_opt_view(o: Option<String>) -> Option<Seq<char>> {
    match o {
        Some(s) => Some(s@),
        None => None,
    }
}

fn nonempty_exec(v: Option<String>) -> (r: Option<String>)
    ensures
        string_opt_view(r) == nonempty_setting(string_opt_view(v)),
{
    match v {
        Some(s) => if s.as_str().is_empty() {
            None
        } else {
            Some(s)
        },
        None => None,
    }
}

/// The server address: the `API_SERVER` setting, or the local default.
pub fn get_api_url(api_server: Option<String>) -> (r: String)
    ensures
        r@ == match nonempty_setting(string_opt_view(api_server)) {
            Some(s) => s,
            None => "http://localhost:8642"@,
        },
{
    match nonempty_exec(api_server) {
        Some(s) => s,
        None => "http://localhost:8642".to_owned(),
    }
}

/// The API key, when `API_SERVER_KEY` holds one.
pub fn get_api_key(api_server_key: Option<String>) -> (r: Option<String>)
    ensures
        string_opt_view(r) == nonempty_setting(string_opt_view(api_server_key)),
{
    nonempty_exec(api_server_key)
}

/// The agent to route to, when `API_AGENT` names one.
pub fn get_api_agent(api_agent: Option<String>) -> (r: Option<String>)
    ensures
        string_opt_view(r) == nonempty_setting(string_opt_view(api_agent)),
{
    nonempty_exec(api_agent)
}

pub fn default_pause_tolerance_ms() -> (r: u32)
    ensures
        r == 1500,
{
    1500
}

pub fn default_true() -> (r: bool)
    ensures
        r,
{
    true
}

pub fn default_ui_lang() -> (r: String)
    ensures
        r@ == "en"@,
{
    "en".to_owned()
}

/// The settings whose change has to be applied to running parts.
pub struct LiveSettings {
    pub hotkey_code: i64,
    pub double_click_to_record: bool,
    pub wake_word_enabled: bool,
    pub last_enrolled_speaker: String,
}

/// What saving settings has to do to the running parts.
pub struct ApplyPlan {
    pub update_hotkey: Option<i64>,
    pub set_double_click: Option<bool>,
    /// Stop the wake-word listener.
    pub restart_wake: bool,
    /// Start it again afterwards.
    pub start_wake: bool,
}

/// Only what changed is applied: the hotkey, the double-click mode, and the
/// wake-word listener when its switch, threshold or speaker changed (it is
/// stopped, and started again when enabled).
pub open spec fn apply_plan_matches(p: ApplyPlan, old: LiveSettings, new: LiveSettings, threshold_changed: bool) -> bool {
    let wake = old.wake_word_enabled != new.wake_word_enabled || threshold_changed
        || old.last_enrolled_speaker@ != new.last_enrolled_speaker@;
    &&& p.update_hotkey == (if old.hotkey_code != new.hotkey_code { Some(new.hotkey_code) } else { None })
    &&& p.set_double_click == (if old.double_click_to_record != new.double_click_to_record {
        Some(new.double_click_to_record)
    } else {
        None
    })
    &&& p.restart_wake == wake
    &&& p.start_wake == (wake && new.wake_word_enabled)
}

pub fn settings_apply_plan(old: &LiveSettings, new: &LiveSettings, threshold_changed: bool) -> (p: ApplyPlan)
    ensures
        apply_plan_matches(p, *old, *new, threshold_changed),
{
    let speaker_changed = !chars_eq(&chars_of(old.last_enrolled_speaker.as_str()), &chars_of(new.last_enrolled_speaker.as_str()));
    let wake = old.wake_word_enabled != new.wake_word_enabled || threshold_changed || speaker_changed;
    ApplyPlan {
        update_hotkey: if old.hotkey_code != new.hotkey_code { Some(new.hotkey_code) } else { None },
        set_double_click: if old.double_click_to_record != new.double_click_to_record {
            Some(new.double_click_to_record)
        } else {
            None
        },
        restart_wake: wake,
        start_wake: wake && new.wake_word_enabled,
    }
}

/// The error of a save whose changes could not be applied and were rolled back.
pub fn rollback_message(error: &str) -> (r: String)
    ensures
        r@ == "apply settings failed; changes rolled back: "@ + error@,
{
    let mut v = chars_of("apply settings failed; changes rolled back: ");
    append_chars(&mut v, &chars_of(error));
    string_of(&v)
}

} // verus!
