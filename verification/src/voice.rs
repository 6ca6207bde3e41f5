//! Voice input: microphone ownership, the recording and streaming capture
//! state, the continuous-conversation and wake-word state machines, the hotkey
//! state machine, WAV encoding and speech-to-text results.
pub mod audio;
pub mod hotkey;
pub mod conversation;
pub mod record;
pub mod wav;
pub mod wake;
pub mod recording;
pub mod stt;
pub mod venv;
