//! The local HTTP API: what `/push` and `/bridge/send` answer, and who may
//! call them.
//!
//! The HTTP plumbing parses a request body into these types, asks the
//! functions here what to answer, and sends that.
use vstd::prelude::*;

use crate::chat::{bridge_session_key, build_bridge_session_key};
use crate::text::{chars_eq, chars_of, slice_chars, string_of, trim, trim_chars};

verus! {

/// The tone of a pushed message.
#[derive(Clone, Copy, PartialEq, Eq, Structural)]
pub enum Emotion {
    Friendly,
    Cheerful,
    Calm,
    Serious,
    Sad,
    Whisper,
    Excited,
    Angry,
}

impl Emotion {
    pub open spec fn name(self) -> Seq<char> {
        match self {
            Emotion::Friendly => "friendly"@,
            Emotion::Cheerful => "cheerful"@,
            Emotion::Calm => "calm"@,
            Emotion::Serious => "serious"@,
            Emotion::Sad => "sad"@,
            Emotion::Whisper => "whisper"@,
            Emotion::Excited => "excited"@,
            Emotion::Angry => "angry"@,
        }
    }

    /// The lowercase name, as requests spell it.
    pub fn as_str(&self) -> (r: &'static str)
        ensures
            r@ == self.name(),
    {
        match self {
            Emotion::Friendly => "friendly",
            Emotion::Cheerful => "cheerful",
            Emotion::Calm => "calm",
            Emotion::Serious => "serious",
            Emotion::Sad => "sad",
            Emotion::Whisper => "whisper",
            Emotion::Excited => "excited",
            Emotion::Angry => "angry",
        }
    }
}

/// The body of `/push`.
pub struct PushRequest {
    /// Text to speak and display.
    pub text: String,
    /// Tone; `friendly` when absent.
    pub emotion: Option<Emotion>,
    /// A voice that overrides the configured one.
    pub voice: Option<String>,
}

/// The body of `/bridge/send`.
pub struct BridgeSendRequest {
    pub source: String,
    pub session_id: String,
    pub text: String,
    pub user_language: Option<String>,
    pub context: Option<String>,
    pub show_thinking: bool,
}

pub struct PushResponse {
    pub ok: bool,
    pub message: String,
}

pub struct BridgeSendResponse {
    pub ok: bool,
    pub accepted: bool,
    pub source: String,
    pub session_id: String,
    pub bridge_session: String,
    pub message: String,
}

pub struct ApiErrorResponse {
    pub ok: bool,
    pub error: String,
}

/// What a push hands to the window: the text, its tone and the voice.
pub struct ApiPayload {
    pub text: String,
    pub emotion: String,
    pub voice: Option<String>,
}

/// A bridge request shows the model's thinking unless it says otherwise.
pub fn default_show_thinking() -> (r: bool)
    ensures
        r,
{
    true
}

pub open spec fn validate_bridge_spec(source: Seq<char>, session_id: Seq<char>, text: Seq<char>) -> Result<(), Seq<char>> {
    if trim(source).len() == 0 {
        Err("source is empty"@)
    } else if trim(session_id).len() == 0 {
        Err("session_id is empty"@)
    } else if trim(text).len() == 0 {
        Err("text is empty"@)
    } else {
        Ok(())
    }
}

pub open spec fn unit_result_view(r: Result<(), String>) -> Result<(), Seq<char>> {
    match r {
        Ok(()) => Ok(()),
        Err(e) => Err(e@),
    }
}

/// A bridge request needs a source, a session and some text, none of them
/// blank; the first one missing is named in the error.
pub fn validate_bridge_request(body: &BridgeSendRequest) -> (r: Result<(), String>)
    ensures
        unit_result_view(r) == validate_bridge_spec(body.source@, body.session_id@, body.text@),
{
    if trim_chars(body.source.as_str()).len() == 0 {
        return Err(string_of(&chars_of("source is empty")));
    }
    if trim_chars(body.session_id.as_str()).len() == 0 {
        return Err(string_of(&chars_of("session_id is empty")));
    }
    if trim_chars(body.text.as_str()).len() == 0 {
        return Err(string_of(&chars_of("text is empty")));
    }
    Ok(())
}

pub open spec fn ack_message() -> Seq<char> {
    "accepted for Hermes dispatch"@
}

/// The answer to an accepted bridge request.
pub fn bridge_ack_response(source: &str, session_id: &str) -> (r: BridgeSendResponse)
    ensures
        r.ok,
        r.accepted,
        r.source@ == source@,
        r.session_id@ == session_id@,
        r.bridge_session@ == bridge_session_key(source@, session_id@),
        r.message@ == ack_message(),
{
    BridgeSendResponse {
        ok: true,
        accepted: true,
        source: source.to_owned(),
        session_id: session_id.to_owned(),
        bridge_session: build_bridge_session_key(source, session_id),
        message: string_of(&chars_of("accepted for Hermes dispatch")),
    }
}

/// With no key configured every request passes; otherwise the
/// `Authorization` header must read `Bearer <key>` exactly.
pub open spec fn authorized_spec(expected: Seq<char>, authorization: Option<Seq<char>>) -> bool {
    expected.len() == 0 || match authorization {
        Some(h) => h.len() >= 7 && h.take(7) == "Bearer "@ && h.skip(7) == expected,
        None => false,
    }
}

/// Whether a request may pass; `authorization` is the header's text, `None`
/// when it is missing or not text.
pub fn is_authorized(expected: &str, authorization: Option<&str>) -> (r: bool)
    ensures
        r == authorized_spec(expected@, match authorization {
            Some(h) => Some(h@),
            None => None,
        }),
{
    let key = chars_of(expected);
    if key.len() == 0 {
        return true;
    }
    match authorization {
        None => false,
        Some(h) => {
            let hv = chars_of(h);
            if hv.len() < 7 {
                return false;
            }
            let head = slice_chars(&hv, 0, 7);
            let prefix = chars_of("Bearer ");
            let tail = slice_chars(&hv, 7, hv.len());
            assert(hv@.take(7) == hv@.subrange(0, 7));
            assert(hv@.skip(7) == hv@.subrange(7, hv@.len() as int));
            chars_eq(&head, &prefix) && chars_eq(&tail, &key)
        },
    }
}

/// What `/push` answers, and what it hands to the window when it accepts.
pub struct PushOutcome {
    /// HTTP status: 200, 400 or 429.
    pub status: u16,
    pub response: PushResponse,
    pub payload: Option<ApiPayload>,
}

pub open spec fn emotion_name_or_default(e: Option<Emotion>) -> Seq<char> {
    match e {
        Some(e) => e.name(),
        None => "friendly"@,
    }
}

pub open spec fn opt_view(o: Option<String>) -> Option<Seq<char>> {
    match o {
        Some(s) => Some(s@),
        None => None,
    }
}

fn copy_opt(o: &Option<String>) -> (r: Option<String>)
    ensures
        opt_view(r) == opt_view(*o),
{
    match o {
        Some(s) => Some(s.clone()),
        None => None,
    }
}

/// A push is refused when its text is blank (400) or the audio queue is full
/// (429); otherwise the trimmed text is handed on with its tone.
pub fn push_outcome(body: &PushRequest, queue_full: bool) -> (r: PushOutcome)
    ensures
        trim(body.text@).len() == 0 ==> r.status == 400 && !r.response.ok && r.response.message@ == "text is empty"@
            && r.payload is None,
        trim(body.text@).len() > 0 && queue_full ==> r.status == 429 && !r.response.ok
            && r.response.message@ == "audio queue full"@ && r.payload is None,
        trim(body.text@).len() > 0 && !queue_full ==> {
            &&& r.status == 200
            &&& r.response.ok
            &&& r.response.message@ == "pushed"@
            &&& r.payload matches Some(p)
            &&& p.text@ == trim(body.text@)
            &&& p.emotion@ == emotion_name_or_default(body.emotion)
            &&& opt_view(p.voice) == opt_view(body.voice)
        },
{
    let text = trim_chars(body.text.as_str());
    if text.len() == 0 {
        return PushOutcome {
            status: 400,
            response: PushResponse { ok: false, message: string_of(&chars_of("text is empty")) },
            payload: None,
        };
    }
    if queue_full {
        return PushOutcome {
            status: 429,
            response: PushResponse { ok: false, message: string_of(&chars_of("audio queue full")) },
            payload: None,
        };
    }
    let emotion: &str = match &body.emotion {
        Some(e) => e.as_str(),
        None => "friendly",
    };
    PushOutcome {
        status: 200,
        response: PushResponse { ok: true, message: string_of(&chars_of("pushed")) },
        payload: Some(ApiPayload {
            text: string_of(&text),
            emotion: emotion.to_owned(),
            voice: copy_opt(&body.voice),
        }),
    }
}

/// An accepted bridge request: its fields trimmed, the context kept only
/// when something is left of it, and the acknowledgement.
pub struct BridgeDispatch {
    pub source: String,
    pub session_id: String,
    pub text: String,
    pub context: Option<String>,
    pub show_thinking: bool,
    pub ack: BridgeSendResponse,
}

pub open spec fn trimmed_context(c: Option<Seq<char>>) -> Option<Seq<char>> {
    match c {
        Some(s) => if trim(s).len() > 0 {
            Some(trim(s))
        } else {
            None
        },
        None => None,
    }
}

/// What `/bridge/send` does: 400 with the validation error, or 202 with the
/// acknowledgement and the message to dispatch.
pub fn bridge_send_outcome(body: &BridgeSendRequest) -> (r: Result<BridgeDispatch, ApiErrorResponse>)
    ensures
        match r {
            Err(e) => !e.ok && validate_bridge_spec(body.source@, body.session_id@, body.text@) == Err::<(), Seq<char>>(e.error@),
            Ok(d) => {
                &&& validate_bridge_spec(body.source@, body.session_id@, body.text@) is Ok
                &&& d.source@ == trim(body.source@)
                &&& d.session_id@ == trim(body.session_id@)
                &&& d.text@ == trim(body.text@)
                &&& opt_view(d.context) == trimmed_context(opt_view(body.context))
                &&& d.show_thinking == body.show_thinking
                &&& d.ack.ok && d.ack.accepted
                &&& d.ack.source@ == trim(body.source@)
                &&& d.ack.session_id@ == trim(body.session_id@)
                &&& d.ack.bridge_session@ == bridge_session_key(trim(body.source@), trim(body.session_id@))
                &&& d.ack.message@ == ack_message()
            },
        },
{
    match validate_bridge_request(body) {
        Err(error) => Err(ApiErrorResponse { ok: false, error }),
        Ok(()) => {
            let source = string_of(&trim_chars(body.source.as_str()));
            let session_id = string_of(&trim_chars(body.session_id.as_str()));
            let text = string_of(&trim_chars(body.text.as_str()));
            let context = match &body.context {
                Some(c) => {
                    let t = trim_chars(c.as_str());
                    if t.len() > 0 {
                        Some(string_of(&t))
                    } else {
                        None
                    }
                },
                None => None,
            };
            let ack = bridge_ack_response(source.as_str(), session_id.as_str());
            Ok(BridgeDispatch { source, session_id, text, context, show_thinking: body.show_thinking, ack })
        },
    }
}


/// With a key configured, exactly `Bearer <key>` opens the API: a missing
/// header, or one without the scheme, is refused.
pub proof fn law_bearer_token(key: Seq<char>)
    requires
        key.len() > 0,
    ensures
        authorized_spec(key, Some("Bearer "@ + key)),
        !authorized_spec(key, None),
        !authorized_spec(key, Some(key)) || (key.len() >= 7 && key.take(7) == "Bearer "@),
{
    reveal_strlit("Bearer ");
    let h = "Bearer "@ + key;
    assert(h.take(7) =~= "Bearer "@);
    assert(h.skip(7) =~= key);
}

/// Without a key every request passes.
pub proof fn law_open_without_key(authorization: Option<Seq<char>>)
    ensures
        authorized_spec(Seq::empty(), authorization),
{
}

} // verus!
