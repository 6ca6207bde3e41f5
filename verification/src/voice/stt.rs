//! Speech-to-text: the result type, which interpreter runs the helper, how
//! the helper's answers are read, the order of attempts, and how the
//! resident server is brought up.
use vstd::prelude::*;

use crate::text::{string_of, trim, trim_chars};

verus! {

/// A transcription: the words and their language code.
pub struct SttResult {
    pub text: String,
    pub language: String,
}

/// Whether the speech server has answered its health check.
pub struct AppReady {
    pub ready: bool,
}

pub fn is_app_ready(a: &AppReady) -> (r: bool)
    ensures
        r == a.ready,
{
    a.ready
}

pub fn mark_app_ready(a: &mut AppReady)
    ensures
        final(a).ready,
{
    a.ready = true;
}

pub open spec fn opt_view(o: Option<String>) -> Option<Seq<char>> {
    match o {
        Some(s) => Some(s@),
        None => None,
    }
}

/// The interpreter: the `STT_PYTHON` override, else the environment's own
/// when it exists, else none.
pub open spec fn python_choice(override_python: Option<Seq<char>>, venv_python: Seq<char>, venv_exists: bool) -> Option<Seq<char>> {
    match override_python {
        Some(p) => Some(p),
        None => if venv_exists {
            Some(venv_python)
        } else {
            None
        },
    }
}

pub fn resolve_python(override_python: Option<String>, venv_python: &str, venv_exists: bool) -> (r: Option<String>)
    ensures
        opt_view(r) == python_choice(opt_view(override_python), venv_python@, venv_exists),
{
    match override_python {
        Some(p) => Some(p),
        None => if venv_exists {
            Some(venv_python.to_owned())
        } else {
            None
        },
    }
}

/// A server answer's `text` and `language` (each `None` unless a string):
/// the text defaults to empty, which is a valid silent result, and the
/// language to `zh`.
pub fn stt_result_from_fields(text: Option<String>, language: Option<String>) -> (r: SttResult)
    ensures
        r.text@ == match opt_view(text) {
            Some(t) => t,
            None => Seq::empty(),
        },
        r.language@ == match opt_view(language) {
            Some(l) => l,
            None => "zh"@,
        },
{
    let t = match text {
        Some(t) => t,
        None => String::new(),
    };
    let l = match language {
        Some(l) => l,
        None => "zh".to_owned(),
    };
    SttResult { text: t, language: l }
}

/// What the helper process printed, once trimmed, and its fields when that
/// is JSON. Empty output is an empty result; JSON gives its fields; anything
/// else is the text itself, in Chinese.
pub open spec fn helper_output_spec(
    stdout: Seq<char>,
    json: Option<(Option<Seq<char>>, Option<Seq<char>>)>,
) -> (Seq<char>, Seq<char>) {
    if stdout.len() == 0 {
        (Seq::empty(), Seq::empty())
    } else {
        match json {
            Some((t, l)) => (
                match t {
                    Some(t) => t,
                    None => Seq::empty(),
                },
                match l {
                    Some(l) => l,
                    None => "zh"@,
                },
            ),
            None => (stdout, "zh"@),
        }
    }
}

/// The helper's raw output is trimmed first; `json` is what that trimmed
/// output parses to, when it is JSON.
pub fn stt_result_from_helper(stdout: &str, json: Option<(Option<String>, Option<String>)>) -> (r: SttResult)
    ensures
        (r.text@, r.language@) == helper_output_spec(trim(stdout@), match json {
            Some((t, l)) => Some((opt_view(t), opt_view(l))),
            None => None,
        }),
{
    let t = trim_chars(stdout);
    if t.len() == 0 {
        return SttResult { text: String::new(), language: String::new() };
    }
    match json {
        Some((tx, l)) => stt_result_from_fields(tx, l),
        None => SttResult { text: string_of(&t), language: "zh".to_owned() },
    }
}

/// Where a transcription goes next: the resident server is asked twice
/// (with a pause between), then the helper process.
#[derive(Clone, Copy, PartialEq, Eq, Structural)]
pub enum SttAttempt {
    Server,
    ServerRetry,
    Helper,
    GiveUp,
}

/// The attempt after a failed one.
pub open spec fn next_attempt_spec(a: SttAttempt) -> SttAttempt {
    match a {
        SttAttempt::Server => SttAttempt::ServerRetry,
        SttAttempt::ServerRetry => SttAttempt::Helper,
        _ => SttAttempt::GiveUp,
    }
}

pub fn next_attempt(a: SttAttempt) -> (r: SttAttempt)
    ensures
        r == next_attempt_spec(a),
{
    match a {
        SttAttempt::Server => SttAttempt::ServerRetry,
        SttAttempt::ServerRetry => SttAttempt::Helper,
        _ => SttAttempt::GiveUp,
    }
}

/// What starting the resident server comes to.
pub enum SttStartup {
    /// It answers already: the app is ready.
    AlreadyRunning,
    /// The server script is missing: nothing is started.
    NoScript,
    /// No interpreter yet: it is started once the environment is installed.
    WaitForVenv,
    /// Start `program` with `args`, then wait for it to answer.
    Spawn { program: String, args: Vec<String> },
}

pub open spec fn args_view(v: Seq<String>) -> Seq<Seq<char>> {
    v.map_values(|s: String| s@)
}

/// The server's arguments: the script, port 8651 and the configured model
/// (`base` by default).
pub open spec fn spawn_args(script: Seq<char>, model: Option<Seq<char>>) -> Seq<Seq<char>> {
    let m = match model {
        Some(m) => m,
        None => "base"@,
    };
    seq![script, "--port"@, "8651"@, "--model"@, m]
}

pub open spec fn is_spawn_of(r: SttStartup, program: Seq<char>, args: Seq<Seq<char>>) -> bool {
    match r {
        SttStartup::Spawn { program: p, args: a } => p@ == program && args_view(a@) == args,
        _ => false,
    }
}

/// An answering server is kept; without its script nothing starts; without
/// an interpreter it waits for the environment; otherwise the interpreter
/// runs the script.
pub open spec fn startup_matches(r: SttStartup, running: bool, script_exists: bool, script: Seq<char>, python: Option<Seq<char>>, model: Option<Seq<char>>) -> bool {
    if running {
        r is AlreadyRunning
    } else if !script_exists {
        r is NoScript
    } else {
        match python {
            None => r is WaitForVenv,
            Some(p) => is_spawn_of(r, p, spawn_args(script, model)),
        }
    }
}

pub fn stt_startup(running: bool, script_exists: bool, script: &str, python: Option<String>, model: Option<String>) -> (r: SttStartup)
    ensures
        startup_matches(r, running, script_exists, script@, opt_view(python), opt_view(model)),
{
    if running {
        return SttStartup::AlreadyRunning;
    }
    if !script_exists {
        return SttStartup::NoScript;
    }
    match python {
        None => SttStartup::WaitForVenv,
        Some(p) => {
            let m = match model {
                Some(m) => m,
                None => "base".to_owned(),
            };
            let mut args: Vec<String> = Vec::new();
            args.push(script.to_owned());
            args.push("--port".to_owned());
            args.push("8651".to_owned());
            args.push("--model".to_owned());
            args.push(m);
            assert(args_view(args@) =~= seq![
                script@,
                "--port"@,
                "8651"@,
                "--model"@,
                m@,
            ]);
            SttStartup::Spawn { program: p, args }
        },
    }
}

} // verus!
