//! One chat turn with the model: reading the streamed reply, handing out
//! what the window shows and the sentences to speak, retrying a failed
//! connection, and what happens once the reply is complete.
//!
//! The async driver opens the stream, feeds every outcome to `turn_step`,
//! emits and speaks what comes back, and stops when it says so.
use vstd::prelude::*;

use crate::chat::{
    detect_emotion, detected_emotion, join_all, law_sentences_keep_the_text, lemma_scan_bounds,
    lemma_trim_end_keeps, lemma_trim_start_keeps, lemma_without_ws_add, select_voice, selected_voice,
    sentences_of, split_sentences, string_views, without_ws,
};
use crate::api::client::{StreamEvent, StreamEventModel};
use crate::tags::{
    cmd_tag_commands, commands_from, strip_all_cmd_tags, strip_cmd_tags, without_any_cmd,
    without_cmd_tags,
};
use crate::text::{append_chars, chars_of, string_of, trim, trim_chars, utf8_len, utf8_len_at_least};

verus! {

/// Retries after the first attempt to open the stream.
pub const MAX_RETRIES: u32 = 2;
/// Reasoning is shown once this many bytes of it have gathered (or a line ends).
pub const REASONING_FLUSH_BYTES: u64 = 60;

/// The window's own chat, or a message bridged in from another app.
#[derive(Clone, Copy, PartialEq, Eq, Structural)]
pub enum TurnMode {
    Ui,
    Bridge,
}

pub open spec fn event_prefix(mode: TurnMode) -> Seq<char> {
    match mode {
        TurnMode::Bridge => "bridge-"@,
        TurnMode::Ui => "chat-"@,
    }
}

/// The name of a turn event: `bridge-<suffix>` or `chat-<suffix>`.
pub fn event_name(mode: TurnMode, suffix: &str) -> (r: String)
    ensures
        r@ == event_prefix(mode) + suffix@,
{
    let mut v = match mode {
        TurnMode::Bridge => chars_of("bridge-"),
        TurnMode::Ui => chars_of("chat-"),
    };
    append_chars(&mut v, &chars_of(suffix));
    string_of(&v)
}

/// What is remembered while a turn streams.
pub struct TurnState {
    pub mode: TurnMode,
    /// Complete sentences are handed out to be spoken.
    pub speak_sentences: bool,
    /// Attempts made so far beyond the first.
    pub attempt: u32,
    pub received_data: bool,
    pub full_response: Vec<char>,
    pub sentence_buffer: Vec<char>,
    pub reasoning_buffer: Vec<char>,
}

#[verifier::ext_equal]
pub struct TurnModel {
    pub mode: TurnMode,
    pub speak_sentences: bool,
    pub attempt: u32,
    pub received_data: bool,
    pub full_response: Seq<char>,
    pub sentence_buffer: Seq<char>,
    pub reasoning_buffer: Seq<char>,
}

impl View for TurnState {
    type V = TurnModel;

    open spec fn view(&self) -> TurnModel {
        TurnModel {
            mode: self.mode,
            speak_sentences: self.speak_sentences,
            attempt: self.attempt,
            received_data: self.received_data,
            full_response: self.full_response@,
            sentence_buffer: self.sentence_buffer@,
            reasoning_buffer: self.reasoning_buffer@,
        }
    }
}

/// What happened since the last step.
pub enum TurnInput {
    /// The stream could not be opened.
    OpenFailed(String),
    /// The stream delivered an item.
    Item(Result<StreamEvent, String>),
    /// The stream ended.
    Ended,
    /// A newer turn took over before the next item was handled.
    Superseded,
}

pub enum TurnInputModel {
    OpenFailed(Seq<char>),
    Item(Result<StreamEventModel, Seq<char>>),
    Ended,
    Superseded,
}

impl View for TurnInput {
    type V = TurnInputModel;

    open spec fn view(&self) -> TurnInputModel {
        match self {
            TurnInput::OpenFailed(e) => TurnInputModel::OpenFailed(e@),
            TurnInput::Item(Ok(ev)) => TurnInputModel::Item(Ok(ev@)),
            TurnInput::Item(Err(e)) => TurnInputModel::Item(Err(e@)),
            TurnInput::Ended => TurnInputModel::Ended,
            TurnInput::Superseded => TurnInputModel::Superseded,
        }
    }
}

/// An event for the window.
pub enum TurnEmit {
    /// `<prefix>thinking` with the gathered reasoning.
    Thinking(String),
    /// `<prefix>tool-call` with the call's id and tool.
    ToolCall { id: String, name: String },
    /// `chat-stream` with a piece of the answer.
    Delta(String),
}

pub enum EmitModel {
    Thinking(Seq<char>),
    ToolCall { id: Seq<char>, name: Seq<char> },
    Delta(Seq<char>),
}

impl View for TurnEmit {
    type V = EmitModel;

    open spec fn view(&self) -> EmitModel {
        match self {
            TurnEmit::Thinking(s) => EmitModel::Thinking(s@),
            TurnEmit::ToolCall { id, name } => EmitModel::ToolCall { id: id@, name: name@ },
            TurnEmit::Delta(s) => EmitModel::Delta(s@),
        }
    }
}

/// How the turn goes on.
pub enum TurnNext {
    Continue,
    /// Open the stream again after a pause.
    Retry,
    /// The turn is over with this reply; `commands` are those its
    /// `[CMD:...]` tags ask for, run where local commands are enabled.
    Done { reply: String, commands: Vec<String> },
    Failed(String),
}

#[verifier::ext_equal]
pub enum NextModel {
    Continue,
    Retry,
    Done { reply: Seq<char>, commands: Seq<Seq<char>> },
    Failed(Seq<char>),
}

impl View for TurnNext {
    type V = NextModel;

    open spec fn view(&self) -> NextModel {
        match self {
            TurnNext::Continue => NextModel::Continue,
            TurnNext::Retry => NextModel::Retry,
            TurnNext::Done { reply, commands } => NextModel::Done {
                reply: reply@,
                commands: commands@.map_values(|c: String| c@),
            },
            TurnNext::Failed(e) => NextModel::Failed(e@),
        }
    }
}

pub struct TurnAction {
    pub emits: Vec<TurnEmit>,
    /// Sentences to speak, in order.
    pub sentences: Vec<String>,
    /// No more sentences will come for this turn's audio.
    pub submission_done: bool,
    pub next: TurnNext,
}

#[verifier::ext_equal]
pub struct ActionModel {
    pub emits: Seq<EmitModel>,
    pub sentences: Seq<Seq<char>>,
    pub submission_done: bool,
    pub next: NextModel,
}

impl View for TurnAction {
    type V = ActionModel;

    open spec fn view(&self) -> ActionModel {
        ActionModel {
            emits: self.emits@.map_values(|e: TurnEmit| e@),
            sentences: string_views(self.sentences@),
            submission_done: self.submission_done,
            next: self.next@,
        }
    }
}

pub open spec fn flush_reasoning(m: TurnModel) -> Seq<EmitModel> {
    if m.reasoning_buffer.len() > 0 {
        seq![EmitModel::Thinking(m.reasoning_buffer)]
    } else {
        Seq::empty()
    }
}

pub open spec fn act(emits: Seq<EmitModel>, sentences: Seq<Seq<char>>, done: bool, next: NextModel) -> ActionModel {
    ActionModel { emits, sentences, submission_done: done, next }
}

/// The stream is over: the unfinished sentence is spoken too, and the reply
/// loses its command tags.
pub open spec fn finish_spec(m: TurnModel) -> (TurnModel, ActionModel) {
    let last = trim(m.sentence_buffer);
    (
        m,
        act(
            Seq::empty(),
            if m.speak_sentences && last.len() > 0 { seq![last] } else { Seq::empty() },
            m.speak_sentences,
            NextModel::Done { reply: without_cmd_tags(m.full_response), commands: commands_from(m.full_response, 0) },
        ),
    )
}

pub open spec fn turn_step_spec(m: TurnModel, input: TurnInputModel) -> (TurnModel, ActionModel) {
    match input {
        TurnInputModel::OpenFailed(e) => if m.attempt < MAX_RETRIES {
            (
                TurnModel { attempt: (m.attempt + 1) as u32, received_data: false, reasoning_buffer: Seq::empty(), ..m },
                act(Seq::empty(), Seq::empty(), false, NextModel::Retry),
            )
        } else {
            (m, act(Seq::empty(), Seq::empty(), false, NextModel::Failed(e)))
        },
        TurnInputModel::Item(Ok(StreamEventModel::Content(delta))) => {
            let emits = flush_reasoning(m) + if m.mode == TurnMode::Ui {
                seq![EmitModel::Delta(delta)]
            } else {
                Seq::empty()
            };
            let buffered = m.sentence_buffer + delta;
            let split = sentences_of(buffered);
            let m1 = TurnModel {
                received_data: true,
                full_response: m.full_response + delta,
                reasoning_buffer: Seq::empty(),
                sentence_buffer: if m.speak_sentences { buffered.skip(split.1) } else { m.sentence_buffer },
                ..m
            };
            (m1, act(emits, if m.speak_sentences { split.0 } else { Seq::empty() }, false, NextModel::Continue))
        },
        TurnInputModel::Item(Ok(StreamEventModel::Reasoning(text))) => {
            let r = m.reasoning_buffer + text;
            if r.contains('\n') || utf8_len(r) >= REASONING_FLUSH_BYTES {
                (
                    TurnModel { received_data: true, reasoning_buffer: Seq::empty(), ..m },
                    act(seq![EmitModel::Thinking(r)], Seq::empty(), false, NextModel::Continue),
                )
            } else {
                (
                    TurnModel { received_data: true, reasoning_buffer: r, ..m },
                    act(Seq::empty(), Seq::empty(), false, NextModel::Continue),
                )
            }
        },
        TurnInputModel::Item(Ok(StreamEventModel::ToolCallStart { id, name })) => (
            TurnModel { received_data: true, reasoning_buffer: Seq::empty(), ..m },
            act(flush_reasoning(m) + seq![EmitModel::ToolCall { id, name }], Seq::empty(), false, NextModel::Continue),
        ),
        TurnInputModel::Item(Err(e)) => if !m.received_data && m.attempt < MAX_RETRIES {
            finish_spec(m)
        } else {
            (m, act(Seq::empty(), Seq::empty(), false, NextModel::Failed(e)))
        },
        TurnInputModel::Ended => finish_spec(m),
        TurnInputModel::Superseded => (
            m,
            act(Seq::empty(), Seq::empty(), false, NextModel::Done { reply: m.full_response, commands: Seq::empty() }),
        ),
    }
}

impl TurnState {
    pub fn new(mode: TurnMode, speak_sentences: bool) -> (t: TurnState)
        ensures
            t@ == (TurnModel {
                mode,
                speak_sentences,
                attempt: 0,
                received_data: false,
                full_response: Seq::empty(),
                sentence_buffer: Seq::empty(),
                reasoning_buffer: Seq::empty(),
            }),
    {
        TurnState {
            mode,
            speak_sentences,
            attempt: 0,
            received_data: false,
            full_response: Vec::new(),
            sentence_buffer: Vec::new(),
            reasoning_buffer: Vec::new(),
        }
    }
}

fn push_emit(v: &mut Vec<TurnEmit>, e: TurnEmit)
    ensures
        final(v)@.map_values(|x: TurnEmit| x@) == old(v)@.map_values(|x: TurnEmit| x@).push(e@),
{
    v.push(e);
    assert(v@.map_values(|x: TurnEmit| x@) =~= old(v)@.map_values(|x: TurnEmit| x@).push(e@));
}

fn take_reasoning(t: &mut TurnState, emits: &mut Vec<TurnEmit>)
    ensures
        final(emits)@.map_values(|x: TurnEmit| x@) == old(emits)@.map_values(|x: TurnEmit| x@) + flush_reasoning(old(t)@),
        final(t)@ == (TurnModel { reasoning_buffer: Seq::empty(), ..old(t)@ }),
{
    if t.reasoning_buffer.len() > 0 {
        let r = string_of(&t.reasoning_buffer);
        push_emit(emits, TurnEmit::Thinking(r));
        t.reasoning_buffer = Vec::new();
    } else {
        assert(t.reasoning_buffer@ =~= Seq::<char>::empty());
        assert(old(emits)@.map_values(|x: TurnEmit| x@) + Seq::<EmitModel>::empty() =~= old(emits)@.map_values(
            |x: TurnEmit| x@,
        ));
    }
}

fn contains_newline(v: &Vec<char>) -> (r: bool)
    ensures
        r == v@.contains('\n'),
{
    let mut i: usize = 0;
    while i < v.len()
        invariant
            i <= v.len(),
            forall|j: int| 0 <= j < i ==> v@[j] != '\n',
        decreases v.len() - i,
    {
        if v[i] == '\n' {
            assert(v@[i as int] == '\n');
            return true;
        }
        i += 1;
    }
    false
}

fn finish(t: &TurnState) -> (a: TurnAction)
    ensures
        a@ == finish_spec(t@).1,
{
    let mut sentences: Vec<String> = Vec::new();
    if t.speak_sentences {
        let s = string_of(&t.sentence_buffer);
        let last = trim_chars(s.as_str());
        if last.len() > 0 {
            sentences.push(string_of(&last));
        }
    }
    assert(string_views(sentences@) =~= (if t@.speak_sentences && trim(t@.sentence_buffer).len() > 0 {
        seq![trim(t@.sentence_buffer)]
    } else {
        Seq::<Seq<char>>::empty()
    }));
    let full = string_of(&t.full_response);
    let reply = strip_cmd_tags(full.as_str());
    let commands = cmd_tag_commands(full.as_str());
    let emits: Vec<TurnEmit> = Vec::new();
    assert(emits@.map_values(|x: TurnEmit| x@) =~= Seq::<EmitModel>::empty());
    TurnAction { emits, sentences, submission_done: t.speak_sentences, next: TurnNext::Done { reply, commands } }
}

fn no_sentences() -> (v: Vec<String>)
    ensures
        string_views(v@) == Seq::<Seq<char>>::empty(),
{
    let v: Vec<String> = Vec::new();
    assert(string_views(v@) =~= Seq::<Seq<char>>::empty());
    v
}

fn no_emits() -> (v: Vec<TurnEmit>)
    ensures
        v@.map_values(|x: TurnEmit| x@) == Seq::<EmitModel>::empty(),
{
    let v: Vec<TurnEmit> = Vec::new();
    assert(v@.map_values(|x: TurnEmit| x@) =~= Seq::<EmitModel>::empty());
    v
}

/// Handles one outcome of the stream; see `turn_step_spec`.
pub fn turn_step(t: &mut TurnState, input: TurnInput) -> (a: TurnAction)
    ensures
        (final(t)@, a@) == turn_step_spec(old(t)@, input@),
        // a tool call is shown under its own id and tool name
        input@ matches TurnInputModel::Item(Ok(StreamEventModel::ToolCallStart { id, name })) ==> a@.emits.len() > 0
            && a@.emits.last() == (EmitModel::ToolCall { id, name }),
{
    proof {
        if let TurnInputModel::Item(Ok(StreamEventModel::ToolCallStart { id, name })) = input@ {
            law_tool_call_shown_as_sent(old(t)@, id, name);
        }
    }
    match input {
        TurnInput::OpenFailed(e) => {
            if t.attempt < MAX_RETRIES {
                t.attempt = t.attempt + 1;
                t.received_data = false;
                t.reasoning_buffer = Vec::new();
                TurnAction { emits: no_emits(), sentences: no_sentences(), submission_done: false, next: TurnNext::Retry }
            } else {
                TurnAction { emits: no_emits(), sentences: no_sentences(), submission_done: false, next: TurnNext::Failed(e) }
            }
        },
        TurnInput::Item(Ok(StreamEvent::Content(delta))) => {
            let ghost m = t@;
            let mut emits = no_emits();
            take_reasoning(t, &mut emits);
            assert(Seq::<EmitModel>::empty() + flush_reasoning(m) =~= flush_reasoning(m));
            let d = chars_of(delta.as_str());
            if t.mode == TurnMode::Ui {
                push_emit(&mut emits, TurnEmit::Delta(delta));
            } else {
                assert(flush_reasoning(m) + Seq::<EmitModel>::empty() =~= flush_reasoning(m));
            }
            t.received_data = true;
            append_chars(&mut t.full_response, &d);
            let mut sentences = no_sentences();
            if t.speak_sentences {
                append_chars(&mut t.sentence_buffer, &d);
                let (s, left) = split_sentences(string_of(&t.sentence_buffer).as_str());
                sentences = s;
                t.sentence_buffer = chars_of(left.as_str());
            }
            TurnAction { emits, sentences, submission_done: false, next: TurnNext::Continue }
        },
        TurnInput::Item(Ok(StreamEvent::Reasoning(text))) => {
            t.received_data = true;
            append_chars(&mut t.reasoning_buffer, &chars_of(text.as_str()));
            if contains_newline(&t.reasoning_buffer) || utf8_len_at_least(&t.reasoning_buffer, 60) {
                let mut emits = no_emits();
                push_emit(&mut emits, TurnEmit::Thinking(string_of(&t.reasoning_buffer)));
                t.reasoning_buffer = Vec::new();
                TurnAction { emits, sentences: no_sentences(), submission_done: false, next: TurnNext::Continue }
            } else {
                TurnAction { emits: no_emits(), sentences: no_sentences(), submission_done: false, next: TurnNext::Continue }
            }
        },
        TurnInput::Item(Ok(StreamEvent::ToolCallStart { id, name })) => {
            let ghost m = t@;
            let mut emits = no_emits();
            take_reasoning(t, &mut emits);
            assert(Seq::<EmitModel>::empty() + flush_reasoning(m) =~= flush_reasoning(m));
            push_emit(&mut emits, TurnEmit::ToolCall { id, name });
            t.received_data = true;
            TurnAction { emits, sentences: no_sentences(), submission_done: false, next: TurnNext::Continue }
        },
        TurnInput::Item(Err(e)) => {
            if !t.received_data && t.attempt < MAX_RETRIES {
                finish(t)
            } else {
                TurnAction { emits: no_emits(), sentences: no_sentences(), submission_done: false, next: TurnNext::Failed(e) }
            }
        },
        TurnInput::Ended => finish(t),
        TurnInput::Superseded => {
            let commands: Vec<String> = Vec::new();
            assert(commands@.map_values(|c: String| c@) =~= Seq::<Seq<char>>::empty());
            TurnAction {
                emits: no_emits(),
                sentences: no_sentences(),
                submission_done: false,
                next: TurnNext::Done { reply: string_of(&t.full_response), commands },
            }
        },
    }
}


/// A bridged turn never streams text into the window's chat: none of its
/// events is a `chat-stream` delta.
pub proof fn law_bridge_emits_no_deltas(m: TurnModel, input: TurnInputModel)
    requires
        m.mode == TurnMode::Bridge,
    ensures
        forall|k: int| 0 <= k < turn_step_spec(m, input).1.emits.len() ==>
            !(turn_step_spec(m, input).1.emits[k] is Delta),
{
    match input {
        TurnInputModel::Item(Ok(StreamEventModel::Content(delta))) => {
            assert(flush_reasoning(m) + Seq::<EmitModel>::empty() =~= flush_reasoning(m));
        },
        _ => {},
    }
}

/// The stream is opened at most `MAX_RETRIES + 1` times: attempts never pass
/// the limit, and a failure at the limit ends the turn.
pub proof fn law_attempts_bounded(m: TurnModel, input: TurnInputModel)
    requires
        m.attempt <= MAX_RETRIES,
    ensures
        turn_step_spec(m, input).0.attempt <= MAX_RETRIES,
        m.attempt == MAX_RETRIES ==> !(turn_step_spec(m, input).1.next is Retry),
{
}

/// Gathered reasoning is shown before what follows it: a piece of the answer
/// or a tool call comes after the thinking that preceded it.
pub proof fn law_reasoning_shown_first(m: TurnModel, delta: Seq<char>)
    requires
        m.reasoning_buffer.len() > 0,
    ensures
        turn_step_spec(m, TurnInputModel::Item(Ok(StreamEventModel::Content(delta)))).1.emits[0]
            == EmitModel::Thinking(m.reasoning_buffer),
        turn_step_spec(m, TurnInputModel::Item(Ok(StreamEventModel::Content(delta)))).0.reasoning_buffer.len() == 0,
{
}

/// A tool call is shown with the id and the tool name it came with, after
/// any reasoning gathered before it; with no reasoning pending it is the
/// only event shown.
pub proof fn law_tool_call_shown_as_sent(m: TurnModel, id: Seq<char>, name: Seq<char>)
    ensures
        ({
            let (m1, a) = turn_step_spec(m, TurnInputModel::Item(Ok(StreamEventModel::ToolCallStart { id, name })));
            &&& a.emits.len() > 0
            &&& a.emits.last() matches EmitModel::ToolCall { id: shown_id, name: shown_name }
            &&& shown_id == id && shown_name == name
            &&& m.reasoning_buffer.len() == 0 ==> a.emits == seq![EmitModel::ToolCall { id, name }]
            &&& m.reasoning_buffer.len() > 0 ==> a.emits == seq![
                EmitModel::Thinking(m.reasoning_buffer),
                EmitModel::ToolCall { id, name },
            ]
            &&& a.sentences.len() == 0 && a.next == NextModel::Continue && m1.reasoning_buffer.len() == 0
        }),
{
    let a = turn_step_spec(m, TurnInputModel::Item(Ok(StreamEventModel::ToolCallStart { id, name }))).1;
    if m.reasoning_buffer.len() == 0 {
        assert(a.emits =~= seq![EmitModel::ToolCall { id, name }]);
    } else {
        assert(a.emits =~= seq![EmitModel::Thinking(m.reasoning_buffer), EmitModel::ToolCall { id, name }]);
    }
}

/// In the window's own chat a piece of the answer is shown as it came, after
/// any reasoning gathered before it, and joins the reply.
pub proof fn law_answer_piece_shown_as_sent(m: TurnModel, delta: Seq<char>)
    requires
        m.mode == TurnMode::Ui,
    ensures
        ({
            let (m1, a) = turn_step_spec(m, TurnInputModel::Item(Ok(StreamEventModel::Content(delta))));
            &&& a.emits.len() > 0 && a.emits.last() == EmitModel::Delta(delta)
            &&& m.reasoning_buffer.len() == 0 ==> a.emits == seq![EmitModel::Delta(delta)]
            &&& m1.full_response == m.full_response + delta
            &&& m1.received_data && a.next == NextModel::Continue
            &&& !m.speak_sentences ==> a.sentences.len() == 0
        }),
{
    let a = turn_step_spec(m, TurnInputModel::Item(Ok(StreamEventModel::Content(delta)))).1;
    if m.reasoning_buffer.len() == 0 {
        assert(a.emits =~= seq![EmitModel::Delta(delta)]);
    }
}

/// Reasoning is shown, all that gathered of it, as soon as a line of it ends;
/// before that, a short piece is held back and nothing is shown.
pub proof fn law_reasoning_shown_by_line(m: TurnModel, text: Seq<char>)
    ensures
        ({
            let (m1, a) = turn_step_spec(m, TurnInputModel::Item(Ok(StreamEventModel::Reasoning(text))));
            &&& text.contains('\n') ==> a.emits == seq![EmitModel::Thinking(m.reasoning_buffer + text)]
                && m1.reasoning_buffer.len() == 0
            &&& !(m.reasoning_buffer + text).contains('\n') && utf8_len(m.reasoning_buffer + text) < 60 ==> a.emits.len()
                == 0 && m1.reasoning_buffer == m.reasoning_buffer + text
            &&& a.sentences.len() == 0 && a.next == NextModel::Continue && m1.full_response == m.full_response
        }),
{
    let r = m.reasoning_buffer + text;
    if text.contains('\n') {
        let k = choose|k: int| 0 <= k < text.len() && text[k] == '\n';
        assert(r[m.reasoning_buffer.len() + k] == '\n');
        assert(r.contains('\n'));
    }
}

/// A failed connection is opened again while retries are left, and ends the
/// turn with its error once they are used up; a newer turn ends this one
/// with the answer so far and runs none of its commands.
pub proof fn law_retry_then_fail(m: TurnModel, e: Seq<char>)
    ensures
        m.attempt < MAX_RETRIES ==> turn_step_spec(m, TurnInputModel::OpenFailed(e)).1.next == NextModel::Retry
            && turn_step_spec(m, TurnInputModel::OpenFailed(e)).0.attempt == m.attempt + 1,
        m.attempt >= MAX_RETRIES ==> turn_step_spec(m, TurnInputModel::OpenFailed(e)).1.next == NextModel::Failed(e),
        turn_step_spec(m, TurnInputModel::Superseded).1.next == (NextModel::Done {
            reply: m.full_response,
            commands: Seq::empty(),
        }),
{
}

/// The answer text the events carry, in order.
pub open spec fn content_of(evs: Seq<StreamEventModel>) -> Seq<char>
    decreases evs.len(),
{
    if evs.len() == 0 {
        Seq::empty()
    } else {
        content_of(evs.drop_last()) + match evs.last() {
            StreamEventModel::Content(d) => d,
            _ => Seq::empty(),
        }
    }
}

/// A turn fed `evs` one by one: its state afterwards and every sentence
/// handed out to be spoken, in order.
pub open spec fn run_events(m: TurnModel, evs: Seq<StreamEventModel>) -> (TurnModel, Seq<Seq<char>>)
    decreases evs.len(),
{
    if evs.len() == 0 {
        (m, Seq::empty())
    } else {
        let (m1, ss) = run_events(m, evs.drop_last());
        let (m2, a) = turn_step_spec(m1, TurnInputModel::Item(Ok(evs.last())));
        (m2, ss + a.sentences)
    }
}

proof fn lemma_join_all_add(a: Seq<Seq<char>>, b: Seq<Seq<char>>)
    ensures
        join_all(a + b) == join_all(a) + join_all(b),
    decreases a.len(),
{
    if a.len() == 0 {
        assert(a + b =~= b);
        assert(Seq::<char>::empty() + join_all(b) =~= join_all(b));
    } else {
        assert((a + b)[0] == a[0]);
        assert((a + b).drop_first() =~= a.drop_first() + b);
        lemma_join_all_add(a.drop_first(), b);
        assert(a[0] + (join_all(a.drop_first()) + join_all(b)) =~= (a[0] + join_all(a.drop_first())) + join_all(b));
    }
}

proof fn lemma_run_events(m: TurnModel, evs: Seq<StreamEventModel>)
    requires
        m.speak_sentences,
    ensures
        run_events(m, evs).0.speak_sentences,
        run_events(m, evs).0.full_response == m.full_response + content_of(evs),
        without_ws(join_all(run_events(m, evs).1)) + without_ws(run_events(m, evs).0.sentence_buffer) == without_ws(
            m.sentence_buffer,
        ) + without_ws(content_of(evs)),
    decreases evs.len(),
{
    if evs.len() == 0 {
        assert(m.full_response + Seq::<char>::empty() =~= m.full_response);
        assert(without_ws(Seq::<char>::empty()) == Seq::<char>::empty());
        assert(Seq::<char>::empty() + without_ws(m.sentence_buffer) =~= without_ws(m.sentence_buffer));
        assert(without_ws(m.sentence_buffer) + Seq::<char>::empty() =~= without_ws(m.sentence_buffer));
    } else {
        let prev = evs.drop_last();
        lemma_run_events(m, prev);
        let (m1, ss) = run_events(m, prev);
        let (m2, a) = turn_step_spec(m1, TurnInputModel::Item(Ok(evs.last())));
        lemma_join_all_add(ss, a.sentences);
        let d = match evs.last() {
            StreamEventModel::Content(d) => d,
            _ => Seq::empty(),
        };
        assert(content_of(evs) == content_of(prev) + d);
        lemma_without_ws_add(content_of(prev), d);
        assert(m.full_response + content_of(prev) + d =~= m.full_response + content_of(evs));
        let wb = without_ws(m.sentence_buffer);
        let wp = without_ws(content_of(prev));
        let wd = without_ws(d);
        let wj = without_ws(join_all(ss));
        if let StreamEventModel::Content(dd) = evs.last() {
            let buffered = m1.sentence_buffer + dd;
            let r = sentences_of(buffered).1;
            lemma_scan_bounds(buffered, 0, 0, false);
            law_sentences_keep_the_text(buffered);
            assert(buffered =~= buffered.take(r) + buffered.skip(r));
            lemma_without_ws_add(buffered.take(r), buffered.skip(r));
            lemma_without_ws_add(m1.sentence_buffer, dd);
            lemma_without_ws_add(join_all(ss), join_all(a.sentences));
            let wa = without_ws(join_all(a.sentences));
            let wt = without_ws(buffered.take(r));
            let wr = without_ws(buffered.skip(r));
            let w1 = without_ws(m1.sentence_buffer);
            // wj + w1 == wb + wp, wa == wt, wt + wr == w1 + wd
            assert((wj + wa) + wr =~= wj + (wt + wr));
            assert(wj + (w1 + wd) =~= (wj + w1) + wd);
            assert((wb + wp) + wd =~= wb + (wp + wd));
        } else {
            assert(a.sentences =~= Seq::<Seq<char>>::empty());
            assert(ss + a.sentences =~= ss);
            assert(d =~= Seq::<char>::empty());
            assert(content_of(prev) + d =~= content_of(prev));
        }
    }
}

/// Nothing of a streamed answer but white space is lost to speech, and the
/// reply is the answer less its command tags: a turn that speaks its
/// sentences, fed any events and then the end of the stream, hands out
/// sentences that together read as the answer text once white space is
/// taken out.
pub proof fn law_spoken_sentences_cover_the_answer(m: TurnModel, evs: Seq<StreamEventModel>)
    requires
        m.speak_sentences,
    ensures
        ({
            let (m1, ss) = run_events(m, evs);
            let (_, a) = turn_step_spec(m1, TurnInputModel::Ended);
            &&& without_ws(join_all(ss + a.sentences)) == without_ws(m.sentence_buffer + content_of(evs))
            &&& a.next matches NextModel::Done { reply, .. } && reply == without_cmd_tags(
                m.full_response + content_of(evs),
            )
        }),
{
    lemma_run_events(m, evs);
    let (m1, ss) = run_events(m, evs);
    let (_, a) = turn_step_spec(m1, TurnInputModel::Ended);
    let buf = m1.sentence_buffer;
    lemma_trim_start_keeps(buf);
    lemma_trim_end_keeps(crate::text::trim_start(buf));
    lemma_join_all_add(ss, a.sentences);
    lemma_without_ws_add(join_all(ss), join_all(a.sentences));
    lemma_without_ws_add(m.sentence_buffer, content_of(evs));
    if trim(buf).len() > 0 {
        assert(a.sentences == seq![trim(buf)]);
        assert(seq![trim(buf)].drop_first() =~= Seq::<Seq<char>>::empty());
        assert(join_all(Seq::<Seq<char>>::empty()) == Seq::<char>::empty());
        assert(join_all(a.sentences) == trim(buf) + join_all(Seq::<Seq<char>>::empty()));
        assert(trim(buf) + Seq::<char>::empty() =~= trim(buf));
        assert(join_all(a.sentences) =~= trim(buf));
    } else {
        assert(a.sentences =~= Seq::<Seq<char>>::empty());
        assert(trim(buf) =~= Seq::<char>::empty());
        assert(without_ws(Seq::<char>::empty()) == Seq::<char>::empty());
        assert(without_ws(join_all(a.sentences)) =~= without_ws(buf));
    }
}

} // verus!
