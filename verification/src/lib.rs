//! A desktop voice assistant's core: how replies are split, cleaned and
//! spoken, how the audio queue, the hotkey, continuous conversation and
//! wake-word listening behave, what the local HTTP API answers, and the
//! rules of the settings store.
use vstd::prelude::*;

use crate::text::{append_chars, chars_of, string_of};

pub mod text;
pub mod chat;
pub mod tags;
pub mod audio_queue;
pub mod voice;
pub mod api;
pub mod turn;
pub mod speech;
pub mod config;
pub mod history;
pub mod settings;

verus! {

/// What the window's chat remembers: its session name.
pub struct AppState {
    pub session_id: String,
}

impl AppState {
    /// The session every window chat starts with.
    pub fn new() -> (s: AppState)
        ensures
            s.session_id@ == "pocket-agent"@,
    {
        AppState { session_id: "pocket-agent".to_owned() }
    }
}

/// The session a day's window chat is held under: `<session>-<day>`, so that
/// each day starts afresh.
pub fn session_for_day(state: &AppState, day: &str) -> (r: String)
    ensures
        r@ == state.session_id@ + "-"@ + day@,
{
    let mut v = chars_of(state.session_id.as_str());
    append_chars(&mut v, &chars_of("-"));
    append_chars(&mut v, &chars_of(day));
    string_of(&v)
}

} // verus!
