//! The chat client's own logic: the request it sends for a turn, and how it
//! reads the server-sent events that come back.
//!
//! The HTTP layer sends the planned request, parses each event's JSON data
//! into `SseJson`, and passes every item of the stream to `sse_event`.
use vstd::prelude::*;

use crate::text::{append_chars, chars_eq, chars_of, string_of};

verus! {

/// One piece of a streamed reply.
pub enum StreamEvent {
    /// Text of the answer.
    Content(String),
    /// The model's thinking.
    Reasoning(String),
    /// A tool call begins.
    ToolCallStart { id: String, name: String },
}

pub enum StreamEventModel {
    Content(Seq<char>),
    Reasoning(Seq<char>),
    ToolCallStart { id: Seq<char>, name: Seq<char> },
}

impl View for StreamEvent {
    type V = StreamEventModel;

    open spec fn view(&self) -> StreamEventModel {
        match self {
            StreamEvent::Content(s) => StreamEventModel::Content(s@),
            StreamEvent::Reasoning(s) => StreamEventModel::Reasoning(s@),
            StreamEvent::ToolCallStart { id, name } => StreamEventModel::ToolCallStart { id: id@, name: name@ },
        }
    }
}

/// `s` without the trailing `c`s, as `str::trim_end_matches(c)` leaves it.
pub open spec fn trim_trailing(s: Seq<char>, c: char) -> Seq<char>
    decreases s.len(),
{
    if s.len() > 0 && s.last() == c {
        trim_trailing(s.drop_last(), c)
    } else {
        s
    }
}

/// The server's base URL without trailing slashes.
pub fn base_url_of(url: &str) -> (r: String)
    ensures
        r@ == trim_trailing(url@, '/'),
{
    let v = chars_of(url);
    let mut j = v.len();
    assert(v@.take(v.len() as int) =~= v@);
    while j > 0 && v[j - 1] == '/'
        invariant
            j <= v.len(),
            trim_trailing(v@.take(j as int), '/') == trim_trailing(v@, '/'),
        decreases j,
    {
        assert(v@.take(j as int).drop_last() =~= v@.take(j - 1));
        j -= 1;
    }
    assert(v@.take(v.len() as int) =~= v@);
    let mut out: Vec<char> = Vec::new();
    let mut i: usize = 0;
    while i < j
        invariant
            i <= j <= v.len(),
            out@ == v@.take(i as int),
        decreases j - i,
    {
        out.push(v[i]);
        assert(v@.take(i + 1) =~= v@.take(i as int).push(v@[i as int]));
        i += 1;
    }
    string_of(&out)
}

/// A chat message of the request: its role and content.
pub struct OutMessage {
    pub role: String,
    pub content: String,
}

/// A request header: its name and value.
pub struct Header {
    pub name: String,
    pub value: String,
}

/// Everything the chat request is made of.
pub struct ChatRequestPlan {
    pub url: String,
    pub model: String,
    pub messages: Vec<OutMessage>,
    pub headers: Vec<Header>,
}

pub open spec fn messages_view(v: Seq<OutMessage>) -> Seq<(Seq<char>, Seq<char>)> {
    Seq::new(v.len(), |i: int| (v[i].role@, v[i].content@))
}

pub open spec fn headers_view(v: Seq<Header>) -> Seq<(Seq<char>, Seq<char>)> {
    Seq::new(v.len(), |i: int| (v[i].name@, v[i].value@))
}

pub open spec fn opt_view(o: Option<&str>) -> Option<Seq<char>> {
    match o {
        Some(s) => Some(s@),
        None => None,
    }
}

/// A system message for `o` when it holds text.
pub open spec fn system_part(o: Option<Seq<char>>) -> Seq<(Seq<char>, Seq<char>)> {
    match o {
        Some(s) => if s.len() > 0 {
            seq![("system"@, s)]
        } else {
            Seq::empty()
        },
        None => Seq::empty(),
    }
}

/// The conversation sent: the context, the voice instructions, then the
/// user's text.
pub open spec fn request_messages(text: Seq<char>, voice_hint: Option<Seq<char>>, context: Option<Seq<char>>) -> Seq<(Seq<char>, Seq<char>)> {
    (system_part(context) + system_part(voice_hint)).push(("user"@, text))
}

pub open spec fn request_model(agent: Option<Seq<char>>) -> Seq<char> {
    match agent {
        Some(a) => "openclaw/"@ + a,
        None => "default"@,
    }
}

/// The headers: the bearer key, the session for continuity, and with an
/// agent configured the same session in the agent's own form.
pub open spec fn request_headers(key: Option<Seq<char>>, agent: Option<Seq<char>>, session_id: Option<Seq<char>>) -> Seq<(Seq<char>, Seq<char>)> {
    let auth = match key {
        Some(k) => seq![("Authorization"@, "Bearer "@ + k)],
        None => Seq::empty(),
    };
    let session = match session_id {
        Some(s) => {
            let agent_part = match agent {
                Some(a) => seq![("x-openclaw-session-key"@, "agent:"@ + a + ":"@ + s)],
                None => Seq::empty(),
            };
            seq![("X-Hermes-Session-Id"@, s)] + agent_part
        },
        None => Seq::empty(),
    };
    auth + session
}

fn push_message(v: &mut Vec<OutMessage>, role: &str, content: &str)
    ensures
        messages_view(final(v)@) == messages_view(old(v)@).push((role@, content@)),
{
    v.push(OutMessage { role: role.to_owned(), content: content.to_owned() });
    assert(messages_view(v@) =~= messages_view(old(v)@).push((role@, content@)));
}

fn push_header(v: &mut Vec<Header>, name: &str, value: String)
    ensures
        headers_view(final(v)@) == headers_view(old(v)@).push((name@, value@)),
{
    v.push(Header { name: name.to_owned(), value });
    assert(headers_view(v@) =~= headers_view(old(v)@).push((name@, value@)));
}

/// The request for one turn to the server at `base_url`.
pub fn chat_request_plan(
    base_url: &str,
    api_key: Option<&str>,
    api_agent: Option<&str>,
    text: &str,
    voice_hint: Option<&str>,
    context: Option<&str>,
    session_id: Option<&str>,
) -> (r: ChatRequestPlan)
    ensures
        r.url@ == base_url@ + "/v1/chat/completions"@,
        r.model@ == request_model(opt_view(api_agent)),
        messages_view(r.messages@) == request_messages(text@, opt_view(voice_hint), opt_view(context)),
        headers_view(r.headers@) == request_headers(opt_view(api_key), opt_view(api_agent), opt_view(session_id)),
{
    let mut url = chars_of(base_url);
    append_chars(&mut url, &chars_of("/v1/chat/completions"));
    let model = match api_agent {
        Some(a) => {
            let mut m = chars_of("openclaw/");
            append_chars(&mut m, &chars_of(a));
            string_of(&m)
        },
        None => "default".to_owned(),
    };
    let mut messages: Vec<OutMessage> = Vec::new();
    proof {
        assert(messages_view(messages@) =~= Seq::empty());
    }
    if let Some(c) = context {
        if !c.is_empty() {
            push_message(&mut messages, "system", c);
        }
    }
    assert(messages_view(messages@) =~= system_part(opt_view(context)));
    let ghost after_context = messages_view(messages@);
    if let Some(h) = voice_hint {
        if !h.is_empty() {
            push_message(&mut messages, "system", h);
        }
    }
    assert(messages_view(messages@) =~= after_context + system_part(opt_view(voice_hint)));
    push_message(&mut messages, "user", text);

    let mut headers: Vec<Header> = Vec::new();
    proof {
        assert(headers_view(headers@) =~= Seq::empty());
    }
    if let Some(k) = api_key {
        let mut v = chars_of("Bearer ");
        append_chars(&mut v, &chars_of(k));
        push_header(&mut headers, "Authorization", string_of(&v));
    }
    let ghost after_auth = headers_view(headers@);
    if let Some(sid) = session_id {
        push_header(&mut headers, "X-Hermes-Session-Id", sid.to_owned());
        if let Some(a) = api_agent {
            let mut v = chars_of("agent:");
            append_chars(&mut v, &chars_of(a));
            append_chars(&mut v, &chars_of(":"));
            append_chars(&mut v, &chars_of(sid));
            push_header(&mut headers, "x-openclaw-session-key", string_of(&v));
        }
    }
    assert(headers_view(headers@) =~= request_headers(opt_view(api_key), opt_view(api_agent), opt_view(session_id)));
    ChatRequestPlan { url: string_of(&url), model, messages, headers }
}

/// What the JSON data of an event says, as far as the reader looks at it.
pub struct SseJson {
    /// `status` of a tool-progress event.
    pub status: Option<String>,
    /// `toolCallId` of a tool-progress event.
    pub tool_call_id: Option<String>,
    /// `tool` of a tool-progress event.
    pub tool: Option<String>,
    /// The `delta` of the first choice, when `choices` is a non-empty array.
    pub delta: Option<ChoiceDelta>,
}

/// The fields of a choice's `delta` (each `None` unless it is a string or,
/// for `tool_calls`, an array).
pub struct ChoiceDelta {
    pub reasoning: Option<String>,
    pub reasoning_content: Option<String>,
    pub tool_calls: Option<Vec<ToolCallDelta>>,
    pub content: Option<String>,
}

/// `id` and `function.name` of a tool call.
pub struct ToolCallDelta {
    pub id: Option<String>,
    pub name: Option<String>,
}

/// One item of the event stream.
pub enum SseItem {
    /// An event: its name, its data, and the data read as JSON (`None` when
    /// it is not JSON).
    Event { event: String, data: String, json: Option<SseJson> },
    /// The stream failed to deliver an event.
    Error,
}

/// At most this many stream errors in a row are tolerated.
pub const MAX_STREAM_ERRORS: u32 = 5;

/// Stream errors since the last good event.
pub struct SseErrorCount {
    pub count: u32,
}

pub open spec fn sv(o: Option<String>) -> Option<Seq<char>> {
    match o {
        Some(s) => Some(s@),
        None => None,
    }
}

pub open spec fn nonempty(o: Option<String>) -> bool {
    o matches Some(s) && s@.len() > 0
}

/// A tool-progress event reports a starting tool call when its status is
/// `running` and it names both the call and the tool.
pub open spec fn progress_event(j: SseJson) -> Option<StreamEventModel> {
    if sv(j.status) == Some("running"@) && nonempty(j.tool_call_id) && nonempty(j.tool) {
        Some(StreamEventModel::ToolCallStart { id: j.tool_call_id->Some_0@, name: j.tool->Some_0@ })
    } else {
        None
    }
}

/// The first tool call naming both its id and its function.
pub open spec fn first_tool_call(calls: Seq<ToolCallDelta>) -> Option<StreamEventModel>
    decreases calls.len(),
{
    if calls.len() == 0 {
        None
    } else if nonempty(calls[0].id) && nonempty(calls[0].name) {
        Some(StreamEventModel::ToolCallStart { id: calls[0].id->Some_0@, name: calls[0].name->Some_0@ })
    } else {
        first_tool_call(calls.drop_first())
    }
}

/// A delta gives, in this order of preference: its reasoning (the
/// `reasoning` field, or `reasoning_content` when there is none), a
/// starting tool call, or its content; empty text counts as none.
pub open spec fn delta_event(d: ChoiceDelta) -> Option<StreamEventModel> {
    let reasoning = match d.reasoning {
        Some(r) => Some(r@),
        None => sv(d.reasoning_content),
    };
    if reasoning matches Some(r) && r.len() > 0 {
        Some(StreamEventModel::Reasoning(reasoning->Some_0))
    } else if d.tool_calls matches Some(calls) && first_tool_call(calls@) is Some {
        first_tool_call(d.tool_calls->Some_0@)
    } else if nonempty(d.content) {
        Some(StreamEventModel::Content(d.content->Some_0@))
    } else {
        None
    }
}

pub open spec fn unstable_message() -> Seq<char> {
    "SSE stream unstable, auto-disconnected (5 errors)"@
}

/// One stream item: the end marker and unusable data give nothing; every
/// other event resets the error count; an error counts, and the fifth in a
/// row gives up on the stream.
pub open spec fn sse_event_spec(count: u32, item: SseItemModel) -> (u32, Option<Result<StreamEventModel, Seq<char>>>) {
    match item {
        SseItemModel::Error => {
            let c = if count == u32::MAX { 0u32 } else { (count + 1) as u32 };
            (c, if c >= MAX_STREAM_ERRORS { Some(Err(unstable_message())) } else { None })
        },
        SseItemModel::Event { event, data, json } => {
            if data == "[DONE]"@ {
                (count, None)
            } else if event == "hermes.tool.progress"@ {
                (0, match json {
                    Some(j) => match progress_event(j) {
                        Some(e) => Some(Ok(e)),
                        None => None,
                    },
                    None => None,
                })
            } else {
                (0, match json {
                    Some(j) => match j.delta {
                        Some(d) => match delta_event(d) {
                            Some(e) => Some(Ok(e)),
                            None => None,
                        },
                        None => None,
                    },
                    None => None,
                })
            }
        },
    }
}

pub enum SseItemModel {
    Event { event: Seq<char>, data: Seq<char>, json: Option<SseJson> },
    Error,
}

impl View for SseItem {
    type V = SseItemModel;

    open spec fn view(&self) -> SseItemModel {
        match self {
            SseItem::Event { event, data, json } => SseItemModel::Event { event: event@, data: data@, json: *json },
            SseItem::Error => SseItemModel::Error,
        }
    }
}

pub open spec fn item_result_view(r: Option<Result<StreamEvent, String>>) -> Option<Result<StreamEventModel, Seq<char>>> {
    match r {
        Some(Ok(e)) => Some(Ok(e@)),
        Some(Err(s)) => Some(Err(s@)),
        None => None,
    }
}

fn is_str(s: &String, lit: &str) -> (r: bool)
    ensures
        r == (s@ == lit@),
{
    chars_eq(&chars_of(s.as_str()), &chars_of(lit))
}

fn nonempty_exec(o: &Option<String>) -> (r: bool)
    ensures
        r == nonempty(*o),
{
    match o {
        Some(s) => !s.as_str().is_empty(),
        None => false,
    }
}

fn tool_call_event(calls: &Vec<ToolCallDelta>) -> (r: Option<StreamEvent>)
    ensures
        match r {
            Some(e) => first_tool_call(calls@) == Some(e@),
            None => first_tool_call(calls@) is None,
        },
{
    let mut i: usize = 0;
    assert(calls@.skip(0) =~= calls@);
    while i < calls.len()
        invariant
            i <= calls.len(),
            first_tool_call(calls@.skip(i as int)) == first_tool_call(calls@),
        decreases calls.len() - i,
    {
        assert(calls@.skip(i as int)[0] == calls@[i as int]);
        if nonempty_exec(&calls[i].id) && nonempty_exec(&calls[i].name) {
            let id = match &calls[i].id {
                Some(s) => s.clone(),
                None => String::new(),
            };
            let name = match &calls[i].name {
                Some(s) => s.clone(),
                None => String::new(),
            };
            return Some(StreamEvent::ToolCallStart { id, name });
        }
        assert(calls@.skip(i as int).drop_first() =~= calls@.skip(i + 1));
        i += 1;
    }
    assert(calls@.skip(i as int).len() == 0);
    None
}

fn delta_stream_event(d: &ChoiceDelta) -> (r: Option<StreamEvent>)
    ensures
        match r {
            Some(e) => delta_event(*d) == Some(e@),
            None => delta_event(*d) is None,
        },
{
    let reasoning: Option<&String> = match &d.reasoning {
        Some(r) => Some(r),
        None => match &d.reasoning_content {
            Some(r) => Some(r),
            None => None,
        },
    };
    if let Some(r) = reasoning {
        if !r.as_str().is_empty() {
            return Some(StreamEvent::Reasoning(r.clone()));
        }
    }
    if let Some(calls) = &d.tool_calls {
        let e = tool_call_event(calls);
        if e.is_some() {
            return e;
        }
    }
    match &d.content {
        Some(c) => if !c.as_str().is_empty() {
            Some(StreamEvent::Content(c.clone()))
        } else {
            None
        },
        None => None,
    }
}

/// Reads one item of the stream; see `sse_event_spec`.
pub fn sse_event(counter: &mut SseErrorCount, item: &SseItem) -> (r: Option<Result<StreamEvent, String>>)
    ensures
        (final(counter).count, item_result_view(r)) == sse_event_spec(old(counter).count, item@),
{
    match item {
        SseItem::Error => {
            counter.count = counter.count.wrapping_add(1);
            proof {
                let c = old(counter).count;
                if c == u32::MAX {
                    assert(c.wrapping_add(1) == 0u32) by (bit_vector)
                        requires c == 0xffff_ffffu32;
                } else {
                    assert(c.wrapping_add(1) == c + 1) by (bit_vector)
                        requires c < 0xffff_ffffu32;
                }
            }
            if counter.count >= MAX_STREAM_ERRORS {
                Some(Err(string_of(&chars_of("SSE stream unstable, auto-disconnected (5 errors)"))))
            } else {
                None
            }
        },
        SseItem::Event { event, data, json } => {
            if is_str(data, "[DONE]") {
                return None;
            }
            counter.count = 0;
            if is_str(event, "hermes.tool.progress") {
                match json {
                    Some(j) => {
                        let running = match &j.status {
                            Some(s) => is_str(s, "running"),
                            None => false,
                        };
                        if running && nonempty_exec(&j.tool_call_id) && nonempty_exec(&j.tool) {
                            let id = match &j.tool_call_id {
                                Some(s) => s.clone(),
                                None => String::new(),
                            };
                            let name = match &j.tool {
                                Some(s) => s.clone(),
                                None => String::new(),
                            };
                            Some(Ok(StreamEvent::ToolCallStart { id, name }))
                        } else {
                            None
                        }
                    },
                    None => None,
                }
            } else {
                match json {
                    Some(j) => match &j.delta {
                        Some(d) => match delta_stream_event(d) {
                            Some(e) => Some(Ok(e)),
                            None => None,
                        },
                        None => None,
                    },
                    None => None,
                }
            }
        },
    }
}


/// Four stream errors in a row are tolerated; the fifth ends the stream with
/// an error.
pub proof fn law_fifth_error_disconnects()
    ensures
        ({
            let (c1, r1) = sse_event_spec(0, SseItemModel::Error);
            let (c2, r2) = sse_event_spec(c1, SseItemModel::Error);
            let (c3, r3) = sse_event_spec(c2, SseItemModel::Error);
            let (c4, r4) = sse_event_spec(c3, SseItemModel::Error);
            let (c5, r5) = sse_event_spec(c4, SseItemModel::Error);
            &&& r1 is None && r2 is None && r3 is None && r4 is None
            &&& r5 == Some(Err::<StreamEventModel, Seq<char>>(unstable_message()))
        }),
{
}

/// Any event other than the end marker starts the error count afresh, so
/// errors only add up while nothing else arrives.
pub proof fn law_event_resets_errors(count: u32, event: Seq<char>, data: Seq<char>, json: Option<SseJson>)
    requires
        data != "[DONE]"@,
    ensures
        sse_event_spec(count, SseItemModel::Event { event, data, json }).0 == 0,
        sse_event_spec(0, SseItemModel::Error).1 is None,
{
}

} // verus!
