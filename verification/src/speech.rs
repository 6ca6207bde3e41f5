//! What is spoken and shown around a chat turn: the speech job for each
//! sentence, how a finished turn is saved and shown, what a bridged turn
//! answers with, direct speech and status announcements, and voice previews.
use vstd::prelude::*;

use crate::audio_queue::{audio_queue_reserve, reserve_spec, AudioQueue};
use crate::chat::{detect_emotion, detected_emotion, select_voice, selected_voice};
use crate::tags::{strip_all_cmd_tags, without_any_cmd};
use crate::text::{
    append_chars, chars_eq, chars_of, decimal, decimal_chars, is_ascii_alnum, is_lit, occurs_at,
    occurs_at_exec, string_of, trim, trim_chars,
};

verus! {

pub open spec fn default_voice() -> Seq<char> {
    "zh-CN-XiaoxiaoNeural"@
}

/// Where a speech file goes: `/tmp/pocket-agent-tts-<id>.mp3` for `mp3`,
/// `.wav` for anything else; `id_ms` is the time in milliseconds.
pub open spec fn tts_path_spec(format: Seq<char>, id_ms: u64) -> Seq<char> {
    "/tmp/pocket-agent-tts-"@ + decimal(id_ms as nat) + if format == "mp3"@ {
        ".mp3"@
    } else {
        ".wav"@
    }
}

pub fn tts_path(format: &str, id_ms: u64) -> (r: String)
    ensures
        r@ == tts_path_spec(format@, id_ms),
{
    let mut v = chars_of("/tmp/pocket-agent-tts-");
    append_chars(&mut v, &decimal_chars(id_ms));
    if is_lit(&chars_of(format), "mp3") {
        append_chars(&mut v, &chars_of(".mp3"));
    } else {
        append_chars(&mut v, &chars_of(".wav"));
    }
    string_of(&v)
}

pub open spec fn starts_with(s: Seq<char>, p: Seq<char>) -> bool {
    occurs_at(s, p, 0)
}

pub open spec fn ends_with(s: Seq<char>, p: Seq<char>) -> bool {
    occurs_at(s, p, s.len() - p.len())
}

pub open spec fn valid_preview_voice(v: Seq<char>) -> bool {
    &&& v.len() > 0
    &&& ends_with(v, "Neural"@)
    &&& forall|i: int| 0 <= i < v.len() ==> is_ascii_alnum(#[trigger] v[i]) || v[i] == '-'
}

/// A voice preview needs a neural voice name made of letters, digits and
/// dashes, and a `wav` (the default) or `mp3` format; the format comes back.
pub open spec fn preview_check_spec(voice: Seq<char>, format: Option<Seq<char>>) -> Result<Seq<char>, Seq<char>> {
    let f = match format {
        Some(f) => f,
        None => "wav"@,
    };
    if !valid_preview_voice(voice) {
        Err("invalid preview voice"@)
    } else if f != "wav"@ && f != "mp3"@ {
        Err("invalid preview audio format"@)
    } else {
        Ok(f)
    }
}

pub open spec fn result_view(r: Result<String, String>) -> Result<Seq<char>, Seq<char>> {
    match r {
        Ok(s) => Ok(s@),
        Err(e) => Err(e@),
    }
}

pub open spec fn str_opt_view(o: Option<&str>) -> Option<Seq<char>> {
    match o {
        Some(s) => Some(s@),
        None => None,
    }
}

fn voice_chars_ok(v: &Vec<char>) -> (r: bool)
    ensures
        r == (forall|i: int| 0 <= i < v@.len() ==> is_ascii_alnum(#[trigger] v@[i]) || v@[i] == '-'),
{
    let mut i: usize = 0;
    while i < v.len()
        invariant
            i <= v.len(),
            forall|j: int| 0 <= j < i ==> is_ascii_alnum(#[trigger] v@[j]) || v@[j] == '-',
        decreases v.len() - i,
    {
        let c = v[i];
        let ok = ('0' <= c && c <= '9') || ('a' <= c && c <= 'z') || ('A' <= c && c <= 'Z') || c == '-';
        if !ok {
            return false;
        }
        i += 1;
    }
    true
}

pub fn preview_voice_check(voice: &str, format: Option<&str>) -> (r: Result<String, String>)
    ensures
        result_view(r) == preview_check_spec(voice@, str_opt_view(format)),
{
    let v = chars_of(voice);
    let neural = chars_of("Neural");
    let ends = v.len() >= neural.len() && occurs_at_exec(&v, &neural, v.len() - neural.len());
    if v.len() == 0 || !ends || !voice_chars_ok(&v) {
        return Err(string_of(&chars_of("invalid preview voice")));
    }
    let f = match format {
        Some(f) => chars_of(f),
        None => chars_of("wav"),
    };
    if !is_lit(&f, "wav") && !is_lit(&f, "mp3") {
        return Err(string_of(&chars_of("invalid preview audio format")));
    }
    Ok(string_of(&f))
}

/// The sample sentence a preview speaks, in the voice's language.
pub open spec fn preview_text_spec(voice: Seq<char>) -> Seq<char> {
    if starts_with(voice, "zh-HK-"@) {
        "你好，我係你嘅語音智能助手，好高興可以同你一齊交流。"@
    } else if starts_with(voice, "zh-TW-"@) {
        "你好，我是你的語音智慧助理，很高興能和你一起交流。"@
    } else if starts_with(voice, "zh-"@) {
        "你好，我是你的语音智能助手，很高兴能和你一起交流。"@
    } else if starts_with(voice, "ja-"@) {
        "こんにちは、私はあなたの音声AIアシスタントです。あなたとお話しできてうれしいです。"@
    } else if starts_with(voice, "ko-"@) {
        "안녕하세요. 저는 당신의 음성 인공지능 비서입니다. 함께 이야기하게 되어 기쁩니다."@
    } else if starts_with(voice, "fr-"@) {
        "Bonjour, je suis votre assistant vocal intelligent. Je suis ravi de pouvoir échanger avec vous."@
    } else if starts_with(voice, "de-"@) {
        "Hallo, ich bin Ihr intelligenter Sprachassistent. Ich freue mich, mit Ihnen zu sprechen."@
    } else if starts_with(voice, "es-"@) {
        "Hola, soy tu asistente de voz inteligente. Me alegra mucho poder hablar contigo."@
    } else {
        "Hello, I'm your intelligent voice assistant. I'm very happy to talk with you."@
    }
}

fn starts(v: &Vec<char>, p: &str) -> (r: bool)
    ensures
        r == starts_with(v@, p@),
{
    occurs_at_exec(v, &chars_of(p), 0)
}

pub fn preview_text(voice: &str) -> (r: &'static str)
    ensures
        r@ == preview_text_spec(voice@),
{
    let v = chars_of(voice);
    if starts(&v, "zh-HK-") {
        "你好，我係你嘅語音智能助手，好高興可以同你一齊交流。"
    } else if starts(&v, "zh-TW-") {
        "你好，我是你的語音智慧助理，很高興能和你一起交流。"
    } else if starts(&v, "zh-") {
        "你好，我是你的语音智能助手，很高兴能和你一起交流。"
    } else if starts(&v, "ja-") {
        "こんにちは、私はあなたの音声AIアシスタントです。あなたとお話しできてうれしいです。"
    } else if starts(&v, "ko-") {
        "안녕하세요. 저는 당신의 음성 인공지능 비서입니다. 함께 이야기하게 되어 기쁩니다."
    } else if starts(&v, "fr-") {
        "Bonjour, je suis votre assistant vocal intelligent. Je suis ravi de pouvoir échanger avec vous."
    } else if starts(&v, "de-") {
        "Hallo, ich bin Ihr intelligenter Sprachassistent. Ich freue mich, mit Ihnen zu sprechen."
    } else if starts(&v, "es-") {
        "Hola, soy tu asistente de voz inteligente. Me alegra mucho poder hablar contigo."
    } else {
        "Hello, I'm your intelligent voice assistant. I'm very happy to talk with you."
    }
}

/// A sentence to synthesise and play, its tone and voice.
pub struct SpeakJob {
    pub text: String,
    pub emotion: String,
    pub voice: String,
}

/// The voices configured for speech, and the fixed-language slot.
pub struct VoiceSetup {
    pub primary: String,
    pub aux1: String,
    pub aux2: String,
    pub fixed: String,
}

pub open spec fn sticky_view(o: Option<String>) -> Option<Seq<char>> {
    match o {
        Some(s) => Some(s@),
        None => None,
    }
}

/// A streamed sentence as it is spoken: without command traces (nothing is
/// spoken when nothing is left), in the voice chosen for the turn's first
/// spoken sentence, in the tone of its own words.
pub open spec fn sentence_job_spec(sticky: Option<Seq<char>>, sentence: Seq<char>, setup: VoiceSetup) -> (Option<Seq<char>>, Option<(Seq<char>, Seq<char>, Seq<char>)>) {
    let clean = without_any_cmd(sentence);
    if clean.len() == 0 {
        (sticky, None)
    } else {
        let voice = match sticky {
            Some(v) => v,
            None => selected_voice(clean, setup.primary@, setup.aux1@, setup.aux2@, setup.fixed@),
        };
        (Some(voice), Some((clean, detected_emotion(clean), voice)))
    }
}

pub open spec fn job_view(j: Option<SpeakJob>) -> Option<(Seq<char>, Seq<char>, Seq<char>)> {
    match j {
        Some(j) => Some((j.text@, j.emotion@, j.voice@)),
        None => None,
    }
}

pub fn sentence_job(sticky: &mut Option<String>, sentence: &str, setup: &VoiceSetup) -> (r: Option<SpeakJob>)
    ensures
        (sticky_view(*final(sticky)), job_view(r)) == sentence_job_spec(sticky_view(*old(sticky)), sentence@, *setup),
{
    let clean = strip_all_cmd_tags(sentence);
    if clean.as_str().is_empty() {
        return None;
    }
    let voice = match sticky {
        Some(v) => v.clone(),
        None => select_voice(
            clean.as_str(),
            setup.primary.as_str(),
            setup.aux1.as_str(),
            setup.aux2.as_str(),
            setup.fixed.as_str(),
            "",
        ),
    };
    *sticky = Some(voice.clone());
    let emotion = detect_emotion(clean.as_str());
    Some(SpeakJob { text: clean, emotion, voice })
}

/// Every sentence of a turn is spoken in the voice chosen for its first
/// spoken sentence: once a voice is chosen it stays, whatever follows.
pub proof fn law_first_voice_sticks(v: Seq<char>, sentence: Seq<char>, setup: VoiceSetup)
    ensures
        ({
            let (sticky, job) = sentence_job_spec(Some(v), sentence, setup);
            &&& sticky == Some(v)
            &&& job matches Some((_, _, voice)) ==> voice == v
        }),
{
}

/// Text shown without audio: the text, its tone and its length in characters.
pub struct TextOnly {
    pub text: String,
    pub emotion: String,
    pub total_chars: usize,
}

pub open spec fn text_only_view(t: Option<TextOnly>) -> Option<(Seq<char>, Seq<char>, nat)> {
    match t {
        Some(t) => Some((t.text@, t.emotion@, t.total_chars as nat)),
        None => None,
    }
}

/// How a chat turn ends in the window.
pub struct UiTurnFinish {
    /// The assistant message to save in the history.
    pub save: Option<String>,
    /// Send `chat-stream-end`.
    pub end_stream: bool,
    /// Show the reply as text, with no audio.
    pub text_only: Option<TextOnly>,
}

pub open spec fn opt_str_view(o: Option<String>) -> Option<Seq<char>> {
    match o {
        Some(s) => Some(s@),
        None => None,
    }
}

/// An interrupted turn is saved with a mark (and the newer turn owns the
/// window); an empty reply only ends the stream; otherwise the reply is saved
/// and, without speech, shown as text cleaned of command traces.
pub open spec fn ui_finish_spec(reply: Seq<char>, interrupted: bool, tts_on: bool) -> (Option<Seq<char>>, bool, Option<(Seq<char>, Seq<char>, nat)>) {
    let t = trim(reply);
    if interrupted {
        (
            Some(if t.len() == 0 { "[已被用户打断，无回复]"@ } else { t + " [已被用户打断]"@ }),
            false,
            None,
        )
    } else if t.len() == 0 {
        (None, true, None)
    } else if tts_on {
        (Some(reply), true, None)
    } else {
        let clean = without_any_cmd(reply);
        (
            Some(reply),
            false,
            if clean.len() == 0 { None } else { Some((clean, detected_emotion(reply), clean.len())) },
        )
    }
}

pub fn ui_turn_finish(reply: &str, interrupted: bool, tts_on: bool) -> (r: UiTurnFinish)
    ensures
        (opt_str_view(r.save), r.end_stream, text_only_view(r.text_only)) == ui_finish_spec(reply@, interrupted, tts_on),
{
    let t = trim_chars(reply);
    if interrupted {
        let content = if t.len() == 0 {
            string_of(&chars_of("[已被用户打断，无回复]"))
        } else {
            let mut c = t;
            append_chars(&mut c, &chars_of(" [已被用户打断]"));
            string_of(&c)
        };
        return UiTurnFinish { save: Some(content), end_stream: false, text_only: None };
    }
    if t.len() == 0 {
        return UiTurnFinish { save: None, end_stream: true, text_only: None };
    }
    if tts_on {
        return UiTurnFinish { save: Some(reply.to_owned()), end_stream: true, text_only: None };
    }
    let emotion = detect_emotion(reply);
    let clean = strip_all_cmd_tags(reply);
    let n = chars_of(clean.as_str()).len();
    let text_only = if n == 0 {
        None
    } else {
        Some(TextOnly { text: clean, emotion, total_chars: n })
    };
    UiTurnFinish { save: Some(reply.to_owned()), end_stream: false, text_only }
}

/// How a bridged turn ends.
pub enum BridgeOutcome {
    /// A newer turn took over: say nothing.
    Silent,
    /// Nothing to say: `bridge-turn-finished`.
    Finished,
    /// Speak and show the cleaned reply through the push endpoint.
    Push(SpeakJob),
    /// `bridge-turn-error` with the error.
    Failed(String),
}

pub enum BridgeOutcomeModel {
    Silent,
    Finished,
    Push(Seq<char>, Seq<char>, Seq<char>),
    Failed(Seq<char>),
}

pub open spec fn bridge_outcome_view(o: BridgeOutcome) -> BridgeOutcomeModel {
    match o {
        BridgeOutcome::Silent => BridgeOutcomeModel::Silent,
        BridgeOutcome::Finished => BridgeOutcomeModel::Finished,
        BridgeOutcome::Push(j) => BridgeOutcomeModel::Push(j.text@, j.emotion@, j.voice@),
        BridgeOutcome::Failed(e) => BridgeOutcomeModel::Failed(e@),
    }
}

pub open spec fn bridge_outcome_spec(result: Result<Seq<char>, Seq<char>>, superseded: bool) -> BridgeOutcomeModel {
    if superseded {
        BridgeOutcomeModel::Silent
    } else {
        match result {
            Err(e) => BridgeOutcomeModel::Failed(e),
            Ok(r) => {
                let clean = without_any_cmd(r);
                if trim(r).len() == 0 || clean.len() == 0 {
                    BridgeOutcomeModel::Finished
                } else {
                    BridgeOutcomeModel::Push(clean, detected_emotion(clean), default_voice())
                }
            },
        }
    }
}

pub fn bridge_turn_outcome(result: Result<String, String>, superseded: bool) -> (r: BridgeOutcome)
    ensures
        bridge_outcome_view(r) == bridge_outcome_spec(result_view(result), superseded),
{
    if superseded {
        return BridgeOutcome::Silent;
    }
    match result {
        Err(e) => BridgeOutcome::Failed(e),
        Ok(r) => {
            if trim_chars(r.as_str()).len() == 0 {
                return BridgeOutcome::Finished;
            }
            let clean = strip_all_cmd_tags(r.as_str());
            if clean.as_str().is_empty() {
                return BridgeOutcome::Finished;
            }
            let emotion = detect_emotion(clean.as_str());
            BridgeOutcome::Push(SpeakJob { text: clean, emotion, voice: "zh-CN-XiaoxiaoNeural".to_owned() })
        },
    }
}

/// Direct speech of a given text.
pub enum SpeakPlan {
    Nothing,
    /// Speech is off: show the text with its tone.
    TextOnly(TextOnly),
    /// Speak it: the job and the audio format.
    Speak(SpeakJob, String),
}

/// The options of direct speech, each unset one taking its default.
pub struct SpeakOptions {
    pub emotion: Option<String>,
    pub override_voice: Option<String>,
    pub format: Option<String>,
    pub primary: Option<String>,
    pub aux1: Option<String>,
    pub aux2: Option<String>,
    pub tts_enabled: Option<bool>,
}

pub open spec fn or_default(o: Option<String>, d: Seq<char>) -> Seq<char> {
    match o {
        Some(s) => s@,
        None => d,
    }
}

/// Blank text is not spoken; with speech off the text is shown in its tone
/// (given, or read from the text); otherwise it is spoken in the given voice,
/// or the one its language picks, in `wav` unless told otherwise.
pub open spec fn speak_plan_matches(p: SpeakPlan, text: Seq<char>, o: SpeakOptions) -> bool {
    let emotion = or_default(o.emotion, detected_emotion(text));
    if trim(text).len() == 0 {
        p is Nothing
    } else if o.tts_enabled == Some(false) {
        p matches SpeakPlan::TextOnly(t) && t.text@ == text && t.emotion@ == emotion && t.total_chars == text.len()
    } else {
        let voice = or_default(
            o.override_voice,
            selected_voice(text, or_default(o.primary, default_voice()), or_default(o.aux1, Seq::empty()), or_default(o.aux2, Seq::empty()), Seq::empty()),
        );
        p matches SpeakPlan::Speak(j, f) && j.text@ == text && j.emotion@ == emotion && j.voice@ == voice
            && f@ == or_default(o.format, "wav"@)
    }
}

fn or_default_exec(o: &Option<String>, d: &str) -> (r: String)
    ensures
        r@ == or_default(*o, d@),
{
    match o {
        Some(s) => s.clone(),
        None => d.to_owned(),
    }
}

pub fn speak_text_plan(text: &str, o: &SpeakOptions) -> (p: SpeakPlan)
    ensures
        speak_plan_matches(p, text@, *o),
{
    if trim_chars(text).len() == 0 {
        return SpeakPlan::Nothing;
    }
    let emotion = match &o.emotion {
        Some(e) => e.clone(),
        None => detect_emotion(text),
    };
    let enabled = match o.tts_enabled {
        Some(b) => b,
        None => true,
    };
    if !enabled {
        let n = chars_of(text).len();
        return SpeakPlan::TextOnly(TextOnly { text: text.to_owned(), emotion, total_chars: n });
    }
    let format = or_default_exec(&o.format, "wav");
    let voice = match &o.override_voice {
        Some(v) => v.clone(),
        None => {
            let primary = or_default_exec(&o.primary, "zh-CN-XiaoxiaoNeural");
            let aux1 = or_default_exec(&o.aux1, "");
            let aux2 = or_default_exec(&o.aux2, "");
            select_voice(text, primary.as_str(), aux1.as_str(), aux2.as_str(), "", "")
        },
    };
    proof {
        reveal_strlit("");
    }
    SpeakPlan::Speak(SpeakJob { text: text.to_owned(), emotion, voice }, format)
}

/// A status announcement: spoken quietly in the given voice when it is set,
/// else the one its language picks; nothing when blank or speech is off.
pub open spec fn status_plan_spec(text: Seq<char>, o: SpeakOptions) -> Option<(Seq<char>, Seq<char>)> {
    if trim(text).len() == 0 || o.tts_enabled == Some(false) {
        None
    } else {
        let voice = match o.override_voice {
            Some(v) => if v@.len() > 0 {
                v@
            } else {
                selected_voice(text, or_default(o.primary, default_voice()), or_default(o.aux1, Seq::empty()), or_default(o.aux2, Seq::empty()), Seq::empty())
            },
            None => selected_voice(text, or_default(o.primary, default_voice()), or_default(o.aux1, Seq::empty()), or_default(o.aux2, Seq::empty()), Seq::empty()),
        };
        Some((voice, or_default(o.format, "wav"@)))
    }
}

/// The voice and format of a status announcement; see `status_plan_spec`.
pub fn speak_status_plan(text: &str, o: &SpeakOptions) -> (r: Option<(String, String)>)
    ensures
        match r {
            Some((v, f)) => status_plan_spec(text@, *o) == Some((v@, f@)),
            None => status_plan_spec(text@, *o) is None,
        },
{
    if trim_chars(text).len() == 0 {
        return None;
    }
    if let Some(false) = o.tts_enabled {
        return None;
    }
    let format = or_default_exec(&o.format, "wav");
    let given = match &o.override_voice {
        Some(v) => if v.as_str().is_empty() {
            None
        } else {
            Some(v.clone())
        },
        None => None,
    };
    let voice = match given {
        Some(v) => v,
        None => {
            let primary = or_default_exec(&o.primary, "zh-CN-XiaoxiaoNeural");
            let aux1 = or_default_exec(&o.aux1, "");
            let aux2 = or_default_exec(&o.aux2, "");
            select_voice(text, primary.as_str(), aux1.as_str(), aux2.as_str(), "", "")
        },
    };
    proof {
        reveal_strlit("");
    }
    Some((voice, format))
}


/// A sentence handed to the speech pipeline: what to say, in which tone and
/// voice, in which format, for which audio generation; whether its text is
/// shown in the window, and whether it is a status announcement that leaves
/// the chat's speaking state alone.
pub struct AudioJob {
    pub text: String,
    pub emotion: String,
    pub voice: String,
    pub format: String,
    pub generation: u64,
    pub show_text: bool,
    pub silent: bool,
}

/// What a status announcement comes to: the job handed to the pipeline, if
/// any, and whether wake-word listening must pause for it.
pub struct StatusOutcome {
    pub job: Option<AudioJob>,
    pub pause_wake: bool,
}

/// A status announcement: nothing for blank text or with speech off;
/// otherwise a place is reserved in the queue, and when there is one the
/// text is spoken silently (no text shown, no chat events) in a neutral tone,
/// in the current audio generation; a full queue skips it.
pub fn status_announcement(q: &mut AudioQueue, text: &str, o: &SpeakOptions) -> (r: StatusOutcome)
    requires
        old(q).wf(),
    ensures
        final(q).wf(),
        status_plan_spec(text@, *o) is None ==> r.job is None && !r.pause_wake && *final(q) == *old(q),
        status_plan_spec(text@, *o) matches Some((v, f)) ==> {
            let (q1, res) = reserve_spec(*old(q));
            &&& *final(q) == q1
            &&& r.pause_wake == res.pause_wake
            &&& !res.reserved ==> r.job is None
            &&& res.reserved ==> (r.job matches Some(j) && j.text@ == text@ && j.emotion@ == "neutral"@ && j.voice@
                == v && j.format@ == f && j.generation == old(q).generation && !j.show_text && j.silent)
        },
{
    let plan = speak_status_plan(text, o);
    match plan {
        None => StatusOutcome { job: None, pause_wake: false },
        Some((voice, format)) => {
            let generation = q.generation;
            let res = audio_queue_reserve(q);
            if !res.reserved {
                return StatusOutcome { job: None, pause_wake: res.pause_wake };
            }
            let job = AudioJob {
                text: text.to_owned(),
                emotion: "neutral".to_owned(),
                voice,
                format,
                generation,
                show_text: false,
                silent: true,
            };
            StatusOutcome { job: Some(job), pause_wake: res.pause_wake }
        },
    }
}

/// The speech synthesiser to run: the `EDGE_TTS_BIN` setting, or `edge-tts`.
pub fn edge_tts_bin(setting: Option<String>) -> (r: String)
    ensures
        r@ == match setting {
            Some(s) => s@,
            None => "edge-tts"@,
        },
{
    match setting {
        Some(s) => s,
        None => "edge-tts".to_owned(),
    }
}

pub open spec fn strings_view(v: Seq<String>) -> Seq<Seq<char>> {
    v.map_values(|s: String| s@)
}

/// The synthesiser's arguments for speaking `text` in `voice` at `rate` and
/// `volume` into `path`; blank text is not synthesised at all.
pub open spec fn tts_args_spec(text: Seq<char>, path: Seq<char>, voice: Seq<char>, rate: Seq<char>, volume: Seq<char>) -> Option<Seq<Seq<char>>> {
    if trim(text).len() == 0 {
        None
    } else {
        Some(seq![
            "--voice"@,
            voice,
            "--text"@,
            text,
            "--rate="@ + rate,
            "--volume="@ + volume,
            "--write-media"@,
            path,
        ])
    }
}

pub fn tts_command_args(text: &str, path: &str, voice: &str, rate: &str, volume: &str) -> (r: Option<Vec<String>>)
    ensures
        match r {
            Some(v) => tts_args_spec(text@, path@, voice@, rate@, volume@) == Some(strings_view(v@)),
            None => tts_args_spec(text@, path@, voice@, rate@, volume@) is None,
        },
{
    if trim_chars(text).len() == 0 {
        return None;
    }
    let mut rate_arg = chars_of("--rate=");
    append_chars(&mut rate_arg, &chars_of(rate));
    let mut volume_arg = chars_of("--volume=");
    append_chars(&mut volume_arg, &chars_of(volume));
    let mut v: Vec<String> = Vec::new();
    v.push("--voice".to_owned());
    v.push(voice.to_owned());
    v.push("--text".to_owned());
    v.push(text.to_owned());
    v.push(string_of(&rate_arg));
    v.push(string_of(&volume_arg));
    v.push("--write-media".to_owned());
    v.push(path.to_owned());
    assert(strings_view(v@) =~= seq![
        "--voice"@,
        voice@,
        "--text"@,
        text@,
        "--rate="@ + rate@,
        "--volume="@ + volume@,
        "--write-media"@,
        path@,
    ]);
    Some(v)
}

} // verus!
