# pocket_agent

The core of a desktop voice assistant (a chat widget that talks to an
OpenAI-compatible agent gateway, speaks its replies and listens through a
hotkey, a wake phrase or continuous conversation), written in Verus: the
functions in `src/` carry contracts that Verus proves. The one exception is
`stop_streaming_capture`, which only signals the capture thread and states
nothing of whether the signal arrives; what that thread does as it ends is
`streaming_capture_ended`.

## Layout

- `src/` — the verified library.
  - `text.rs`: characters, trimming, decimal numbers, UTF-8 lengths.
  - `chat.rs`, `tags.rs`: sentence splitting for streamed speech, language
    and voice choice, emotions, and the `[CMD:…]` tag grammar.
  - `turn.rs`: one streamed chat turn as a state machine (retries, reasoning
    flushes, sentence hand-off, superseded turns).
  - `speech.rs`: what a finished turn, a bridged turn, direct speech, status
    announcements and voice previews come to.
  - `audio_queue.rs`: the speech pipeline's book-keeping (bounded queue,
    generations, end-of-audio announcement).
  - `voice/`: hotkey state machine, microphone ownership and the VAD ring,
    single-shot recording timers, continuous conversation, wake-phrase
    detection, WAV headers, speech-to-text attempts, the Python environment's
    paths.
  - `api/`: the local HTTP API's answers and authorisation; the chat
    request and the server-sent-event reader.
  - `config.rs`, `settings.rs`, `history.rs`: voice hints, settings
    validation, asset data URIs and revisions, the chat-history page.
- `tests/` — tests of the library on concrete values.
- `app/` — the program around it: windows and commands, the microphone and
  speakers, the keyboard hook, HTTP, SQLite, subprocesses. It hands plain
  values to the library and carries out what the library decides.

Laws that span several functions stand in `src/` as public proof functions
named `law_…`, next to the functions they speak of.
