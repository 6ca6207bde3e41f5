//! The global hotkey: capturing a new key, and turning presses of the
//! configured key into starting, stopping or cancelling a recording.
//!
//! The keyboard hook itself lives with the platform layer; it hands every
//! event to `hotkey_event`, performs the action that comes back and keeps the
//! returned state.
use vstd::prelude::*;

use crate::text::{append_chars, chars_of, decimal, decimal_chars, string_of};

verus! {

/// Key codes of the hook's events.
pub const EVENT_KEY_DOWN: u32 = 10;
pub const EVENT_KEY_UP: u32 = 11;
pub const EVENT_FLAGS_CHANGED: u32 = 12;
pub const EVENT_TAP_DISABLED_BY_TIMEOUT: u32 = 0xFFFF_FFFE;
pub const EVENT_TAP_DISABLED_BY_USER_INPUT: u32 = 0xFFFF_FFFF;

pub const ESC_KEYCODE: i64 = 53;
/// The fn/globe key as a modifier event reports it.
pub const FN_FLAGS_KEYCODE: i64 = 63;
/// The fn/globe key as a key-down event reports it; the canonical code.
pub const FN_KEYCODE: i64 = 179;
pub const DEFAULT_HOTKEY_CODE: i64 = 60;
pub const DOUBLE_CLICK_THRESHOLD_MS: u64 = 300;

/// Everything the hook remembers between two events.
pub struct HotkeyState {
    /// A new hotkey is being captured; the next key is taken, not acted on.
    pub capturing: bool,
    /// The configured hotkey.
    pub hotkey_code: i64,
    /// A modifier hotkey is held down; its next flags event is its release.
    pub modifier_held: bool,
    /// Swallow the release that follows capturing a modifier key.
    pub suppress_capture_release: bool,
    /// Swallow the duplicate key-down some sessions send after a modifier press.
    pub suppress_next_keydown: bool,
    /// Time of the last hotkey press, in milliseconds (0: none yet).
    pub last_press_ms: u64,
    pub double_click_mode: bool,
    /// The key taken by the last capture, or -1.
    pub captured_key: i64,
    /// A recording started by the hotkey is running.
    pub active: bool,
}

/// What the platform layer does after an event.
pub enum HotkeyAction {
    Nothing,
    /// The system disabled the event tap; enable it again.
    ReenableTap,
    /// A key was captured: its code and display name.
    Captured(i64, String),
    /// Escape ended the capture.
    CaptureCancelled,
    /// Start recording: pre-start the microphone, stop playback, announce the key-down.
    StartRecording,
    /// Stop recording: announce the key-up.
    StopRecording,
    /// Escape during a recording: stop playback and cancel it.
    CancelRecording,
}

/// `HotkeyAction` with the name as characters.
pub enum ActionModel {
    Nothing,
    ReenableTap,
    Captured(i64, Seq<char>),
    CaptureCancelled,
    StartRecording,
    StopRecording,
    CancelRecording,
}

impl View for HotkeyAction {
    type V = ActionModel;

    open spec fn view(&self) -> ActionModel {
        match self {
            HotkeyAction::Nothing => ActionModel::Nothing,
            HotkeyAction::ReenableTap => ActionModel::ReenableTap,
            HotkeyAction::Captured(k, n) => ActionModel::Captured(*k, n@),
            HotkeyAction::CaptureCancelled => ActionModel::CaptureCancelled,
            HotkeyAction::StartRecording => ActionModel::StartRecording,
            HotkeyAction::StopRecording => ActionModel::StopRecording,
            HotkeyAction::CancelRecording => ActionModel::CancelRecording,
        }
    }
}

pub open spec fn keycode_name_spec(code: i64) -> Seq<char> {
    if code == 0 { "A"@ } else if code == 1 { "S"@ } else if code == 2 { "D"@ }
    else if code == 3 { "F"@ } else if code == 4 { "H"@ } else if code == 5 { "G"@ }
    else if code == 6 { "Z"@ } else if code == 7 { "X"@ } else if code == 8 { "C"@ }
    else if code == 9 { "V"@ } else if code == 11 { "B"@ } else if code == 12 { "Q"@ }
    else if code == 13 { "W"@ } else if code == 14 { "E"@ } else if code == 15 { "R"@ }
    else if code == 16 { "Y"@ } else if code == 17 { "T"@ } else if code == 31 { "O"@ }
    else if code == 32 { "U"@ } else if code == 34 { "I"@ } else if code == 35 { "P"@ }
    else if code == 37 { "L"@ } else if code == 38 { "J"@ } else if code == 40 { "K"@ }
    else if code == 45 { "N"@ } else if code == 46 { "M"@ }
    else if code == 18 { "1"@ } else if code == 19 { "2"@ } else if code == 20 { "3"@ }
    else if code == 21 { "4"@ } else if code == 23 { "5"@ } else if code == 22 { "6"@ }
    else if code == 26 { "7"@ } else if code == 28 { "8"@ } else if code == 25 { "9"@ }
    else if code == 29 { "0"@ }
    else if code == 36 { "Return"@ } else if code == 48 { "Tab"@ } else if code == 49 { "Space"@ }
    else if code == 51 { "Delete"@ } else if code == 53 { "Escape"@ }
    else if code == 50 { "`"@ } else if code == 27 { "-"@ } else if code == 24 { "="@ }
    else if code == 33 { "["@ } else if code == 30 { "]"@ } else if code == 42 { "\\\\"@ }
    else if code == 41 { ";"@ } else if code == 39 { "'"@ } else if code == 43 { ","@ }
    else if code == 47 { "."@ } else if code == 44 { "/"@ }
    else if code == 55 { "Cmd"@ } else if code == 56 { "Shift"@ } else if code == 58 { "Option"@ }
    else if code == 59 { "Control"@ } else if code == 57 { "CapsLock"@ }
    else if code == 122 { "F1"@ } else if code == 120 { "F2"@ } else if code == 99 { "F3"@ }
    else if code == 118 { "F4"@ } else if code == 96 { "F5"@ } else if code == 97 { "F6"@ }
    else if code == 98 { "F7"@ } else if code == 100 { "F8"@ } else if code == 101 { "F9"@ }
    else if code == 109 { "F10"@ } else if code == 103 { "F11"@ } else if code == 111 { "F12"@ }
    else if code == 105 { "F13"@ } else if code == 107 { "F14"@ } else if code == 113 { "F15"@ }
    else if code == 123 { "Left"@ } else if code == 124 { "Right"@ } else if code == 125 { "Down"@ }
    else if code == 126 { "Up"@ } else if code == 116 { "PageUp"@ } else if code == 121 { "PageDown"@ }
    else if code == 119 { "End"@ } else if code == 115 { "Home"@ }
    else if code == 60 { "RightShift"@ } else if code == 179 { "fn"@ }
    else { ""@ }
}

/// The display name of a key code, or `""` for a key without one.
pub fn keycode_name(code: i64) -> (r: &'static str)
    ensures
        r@ == keycode_name_spec(code),
{
    if code == 0 { "A" } else if code == 1 { "S" } else if code == 2 { "D" }
    else if code == 3 { "F" } else if code == 4 { "H" } else if code == 5 { "G" }
    else if code == 6 { "Z" } else if code == 7 { "X" } else if code == 8 { "C" }
    else if code == 9 { "V" } else if code == 11 { "B" } else if code == 12 { "Q" }
    else if code == 13 { "W" } else if code == 14 { "E" } else if code == 15 { "R" }
    else if code == 16 { "Y" } else if code == 17 { "T" } else if code == 31 { "O" }
    else if code == 32 { "U" } else if code == 34 { "I" } else if code == 35 { "P" }
    else if code == 37 { "L" } else if code == 38 { "J" } else if code == 40 { "K" }
    else if code == 45 { "N" } else if code == 46 { "M" }
    else if code == 18 { "1" } else if code == 19 { "2" } else if code == 20 { "3" }
    else if code == 21 { "4" } else if code == 23 { "5" } else if code == 22 { "6" }
    else if code == 26 { "7" } else if code == 28 { "8" } else if code == 25 { "9" }
    else if code == 29 { "0" }
    else if code == 36 { "Return" } else if code == 48 { "Tab" } else if code == 49 { "Space" }
    else if code == 51 { "Delete" } else if code == 53 { "Escape" }
    else if code == 50 { "`" } else if code == 27 { "-" } else if code == 24 { "=" }
    else if code == 33 { "[" } else if code == 30 { "]" } else if code == 42 { "\\\\" }
    else if code == 41 { ";" } else if code == 39 { "'" } else if code == 43 { "," }
    else if code == 47 { "." } else if code == 44 { "/" }
    else if code == 55 { "Cmd" } else if code == 56 { "Shift" } else if code == 58 { "Option" }
    else if code == 59 { "Control" } else if code == 57 { "CapsLock" }
    else if code == 122 { "F1" } else if code == 120 { "F2" } else if code == 99 { "F3" }
    else if code == 118 { "F4" } else if code == 96 { "F5" } else if code == 97 { "F6" }
    else if code == 98 { "F7" } else if code == 100 { "F8" } else if code == 101 { "F9" }
    else if code == 109 { "F10" } else if code == 103 { "F11" } else if code == 111 { "F12" }
    else if code == 105 { "F13" } else if code == 107 { "F14" } else if code == 113 { "F15" }
    else if code == 123 { "Left" } else if code == 124 { "Right" } else if code == 125 { "Down" }
    else if code == 126 { "Up" } else if code == 116 { "PageUp" } else if code == 121 { "PageDown" }
    else if code == 119 { "End" } else if code == 115 { "Home" }
    else if code == 60 { "RightShift" } else if code == 179 { "fn" }
    else { "" }
}

/// The name the capture announces: as `keycode_name`, and the raw fn code
/// is called `fn` too.
pub open spec fn keycode_to_name_spec(code: i64) -> Seq<char> {
    if code == FN_FLAGS_KEYCODE {
        "fn"@
    } else {
        keycode_name_spec(code)
    }
}

pub fn keycode_to_name(code: i64) -> (r: String)
    ensures
        r@ == keycode_to_name_spec(code),
{
    if code == FN_FLAGS_KEYCODE {
        "fn".to_owned()
    } else {
        keycode_name(code).to_owned()
    }
}

/// The fn key's raw modifier code is folded into its key-down code.
pub open spec fn normalize_keycode(kc: i64) -> i64 {
    if kc == FN_FLAGS_KEYCODE {
        FN_KEYCODE
    } else {
        kc
    }
}

/// Keys whose flags-changed event a capture accepts: Cmd, Shift, CapsLock,
/// Option, Control, RightShift and fn.
pub open spec fn is_capturable_modifier(kc: i64) -> bool {
    kc == 55 || kc == 56 || kc == 57 || kc == 58 || kc == 59 || kc == 60 || kc == 63
}

/// Milliseconds from `last` to `now` on a clock that wraps around.
pub open spec fn elapsed_ms(now: u64, last: u64) -> int {
    if now >= last {
        now - last
    } else {
        now - last + 0x1_0000_0000_0000_0000
    }
}

/// A press at `now` makes a double click with the press at `last`.
pub open spec fn is_double_click(now: u64, last: u64) -> bool {
    last > 0 && elapsed_ms(now, last) < DOUBLE_CLICK_THRESHOLD_MS
}

/// A press toggles the recording.
pub open spec fn flip_spec(s: HotkeyState) -> (HotkeyState, ActionModel) {
    if !s.active {
        (HotkeyState { active: true, ..s }, ActionModel::StartRecording)
    } else {
        (HotkeyState { active: false, ..s }, ActionModel::StopRecording)
    }
}

/// A hotkey press: toggles at once, or in double-click mode only when it
/// follows the previous press within the threshold.
pub open spec fn press_spec(s: HotkeyState, now: u64) -> (HotkeyState, ActionModel) {
    if s.double_click_mode {
        let s1 = HotkeyState { last_press_ms: now, ..s };
        if is_double_click(now, s.last_press_ms) {
            flip_spec(s1)
        } else {
            (s1, ActionModel::Nothing)
        }
    } else {
        flip_spec(s)
    }
}

/// The event during a capture.
pub open spec fn capture_spec(s: HotkeyState, etype: u32, kc: i64) -> (HotkeyState, ActionModel) {
    if etype != EVENT_KEY_DOWN && etype != EVENT_FLAGS_CHANGED {
        (s, ActionModel::Nothing)
    } else if etype == EVENT_FLAGS_CHANGED && !is_capturable_modifier(kc) {
        (s, ActionModel::Nothing)
    } else if kc != ESC_KEYCODE {
        let k = normalize_keycode(kc);
        (
            HotkeyState {
                capturing: false,
                suppress_capture_release: if etype == EVENT_FLAGS_CHANGED {
                    true
                } else {
                    s.suppress_capture_release
                },
                captured_key: k,
                ..s
            },
            ActionModel::Captured(k, keycode_to_name_spec(k)),
        )
    } else {
        (HotkeyState { capturing: false, captured_key: -1i64, ..s }, ActionModel::CaptureCancelled)
    }
}

/// One keyboard event: its type, raw key code and the time in milliseconds.
pub open spec fn hotkey_event_spec(s: HotkeyState, etype: u32, kc: i64, now: u64) -> (HotkeyState, ActionModel) {
    if etype == EVENT_TAP_DISABLED_BY_TIMEOUT || etype == EVENT_TAP_DISABLED_BY_USER_INPUT {
        (s, ActionModel::ReenableTap)
    } else if etype != EVENT_KEY_DOWN && etype != EVENT_KEY_UP && etype != EVENT_FLAGS_CHANGED {
        (s, ActionModel::Nothing)
    } else if s.capturing {
        capture_spec(s, etype, kc)
    } else if etype == EVENT_FLAGS_CHANGED && s.suppress_capture_release {
        (HotkeyState { suppress_capture_release: false, ..s }, ActionModel::Nothing)
    } else {
        let k = normalize_keycode(kc);
        if k == ESC_KEYCODE && etype == EVENT_KEY_DOWN && s.active {
            (HotkeyState { active: false, ..s }, ActionModel::CancelRecording)
        } else if k != s.hotkey_code || etype == EVENT_KEY_UP {
            (s, ActionModel::Nothing)
        } else if etype == EVENT_KEY_DOWN {
            if s.suppress_next_keydown {
                (HotkeyState { suppress_next_keydown: false, ..s }, ActionModel::Nothing)
            } else {
                press_spec(s, now)
            }
        } else if !s.modifier_held {
            press_spec(HotkeyState { modifier_held: true, suppress_next_keydown: true, ..s }, now)
        } else {
            (HotkeyState { modifier_held: false, ..s }, ActionModel::Nothing)
        }
    }
}

impl HotkeyState {
    /// The state at start-up with `hotkey_code` configured.
    pub fn new(hotkey_code: i64) -> (s: Self)
        ensures
            s == (HotkeyState {
                capturing: false,
                hotkey_code,
                modifier_held: false,
                suppress_capture_release: false,
                suppress_next_keydown: false,
                last_press_ms: 0,
                double_click_mode: false,
                captured_key: -1i64,
                active: false,
            }),
    {
        HotkeyState {
            capturing: false,
            hotkey_code,
            modifier_held: false,
            suppress_capture_release: false,
            suppress_next_keydown: false,
            last_press_ms: 0,
            double_click_mode: false,
            captured_key: -1i64,
            active: false,
        }
    }
}

fn flip(s: &mut HotkeyState) -> (a: HotkeyAction)
    ensures
        (*final(s), a@) == flip_spec(*old(s)),
{
    if !s.active {
        s.active = true;
        HotkeyAction::StartRecording
    } else {
        s.active = false;
        HotkeyAction::StopRecording
    }
}

fn press(s: &mut HotkeyState, now: u64) -> (a: HotkeyAction)
    ensures
        (*final(s), a@) == press_spec(*old(s), now),
{
    if s.double_click_mode {
        let last = s.last_press_ms;
        let double = last > 0 && now.wrapping_sub(last) < DOUBLE_CLICK_THRESHOLD_MS;
        proof {
            if now >= last {
                assert(now.wrapping_sub(last) == now - last) by (bit_vector)
                    requires now >= last;
            } else {
                assert(now.wrapping_sub(last) == now - last + 0x1_0000_0000_0000_0000) by (bit_vector)
                    requires now < last;
            }
        }
        s.last_press_ms = now;
        if double {
            flip(s)
        } else {
            HotkeyAction::Nothing
        }
    } else {
        flip(s)
    }
}

fn capture_event(s: &mut HotkeyState, etype: u32, kc: i64) -> (a: HotkeyAction)
    requires
        old(s).capturing,
    ensures
        (*final(s), a@) == capture_spec(*old(s), etype, kc),
{
    if etype != EVENT_KEY_DOWN && etype != EVENT_FLAGS_CHANGED {
        return HotkeyAction::Nothing;
    }
    if etype == EVENT_FLAGS_CHANGED && !(kc == 55 || kc == 56 || kc == 57 || kc == 58 || kc == 59
        || kc == 60 || kc == 63) {
        return HotkeyAction::Nothing;
    }
    if kc != ESC_KEYCODE {
        s.capturing = false;
        if etype == EVENT_FLAGS_CHANGED {
            s.suppress_capture_release = true;
        }
        let store_kc = if kc == FN_FLAGS_KEYCODE {
            FN_KEYCODE
        } else {
            kc
        };
        s.captured_key = store_kc;
        HotkeyAction::Captured(store_kc, keycode_to_name(store_kc))
    } else {
        s.capturing = false;
        s.captured_key = -1;
        HotkeyAction::CaptureCancelled
    }
}

/// Handles one keyboard event; see `hotkey_event_spec`.
pub fn hotkey_event(s: &mut HotkeyState, etype: u32, kc: i64, now_ms: u64) -> (a: HotkeyAction)
    ensures
        (*final(s), a@) == hotkey_event_spec(*old(s), etype, kc, now_ms),
{
    if etype == EVENT_TAP_DISABLED_BY_TIMEOUT || etype == EVENT_TAP_DISABLED_BY_USER_INPUT {
        return HotkeyAction::ReenableTap;
    }
    if etype != EVENT_KEY_DOWN && etype != EVENT_KEY_UP && etype != EVENT_FLAGS_CHANGED {
        return HotkeyAction::Nothing;
    }
    if s.capturing {
        return capture_event(s, etype, kc);
    }
    let keycode = if kc == FN_FLAGS_KEYCODE {
        FN_KEYCODE
    } else {
        kc
    };
    if etype == EVENT_FLAGS_CHANGED && s.suppress_capture_release {
        s.suppress_capture_release = false;
        return HotkeyAction::Nothing;
    }
    if keycode == ESC_KEYCODE && etype == EVENT_KEY_DOWN && s.active {
        s.active = false;
        return HotkeyAction::CancelRecording;
    }
    if keycode != s.hotkey_code || etype == EVENT_KEY_UP {
        return HotkeyAction::Nothing;
    }
    if etype == EVENT_KEY_DOWN {
        if s.suppress_next_keydown {
            s.suppress_next_keydown = false;
            return HotkeyAction::Nothing;
        }
        press(s, now_ms)
    } else if !s.modifier_held {
        s.modifier_held = true;
        s.suppress_next_keydown = true;
        press(s, now_ms)
    } else {
        s.modifier_held = false;
        HotkeyAction::Nothing
    }
}

/// The action for a key press on platforms whose hook reports presses only:
/// the hotkey toggles, Escape cancels a running recording.
pub open spec fn key_press_spec(s: HotkeyState, code: i64) -> (HotkeyState, ActionModel) {
    if code == s.hotkey_code {
        flip_spec(s)
    } else if code == ESC_KEYCODE && s.active {
        (HotkeyState { active: false, ..s }, ActionModel::CancelRecording)
    } else {
        (s, ActionModel::Nothing)
    }
}

pub fn key_press(s: &mut HotkeyState, code: i64) -> (a: HotkeyAction)
    ensures
        (*final(s), a@) == key_press_spec(*old(s), code),
{
    if code == s.hotkey_code {
        flip(s)
    } else if code == ESC_KEYCODE && s.active {
        s.active = false;
        HotkeyAction::CancelRecording
    } else {
        HotkeyAction::Nothing
    }
}

/// Enters capture mode: the next key pressed becomes the candidate hotkey.
pub fn start_capture(s: &mut HotkeyState)
    ensures
        *final(s) == (HotkeyState {
            captured_key: -1i64,
            capturing: true,
            suppress_capture_release: false,
            suppress_next_keydown: false,
            modifier_held: false,
            ..*old(s)
        }),
{
    s.captured_key = -1;
    s.capturing = true;
    s.suppress_capture_release = false;
    s.suppress_next_keydown = false;
    s.modifier_held = false;
}

/// The display text of a captured key: its name, or `Key(<code>)`.
pub open spec fn display_name(kc: i64) -> Seq<char> {
    if keycode_name_spec(kc).len() == 0 {
        "Key("@ + decimal(kc as nat) + ")"@
    } else {
        keycode_name_spec(kc)
    }
}

/// The captured key, once there is one; taking it ends the capture.
pub fn poll_capture(s: &mut HotkeyState) -> (r: Option<(i64, String)>)
    ensures
        old(s).captured_key >= 0 ==> {
            &&& r matches Some((k, n))
            &&& k == old(s).captured_key
            &&& n@ == display_name(k)
            &&& *final(s) == HotkeyState { capturing: false, ..*old(s) }
        },
        old(s).captured_key < 0 ==> r is None && *final(s) == *old(s),
{
    let kc = s.captured_key;
    if kc >= 0 {
        s.capturing = false;
        let name = keycode_name(kc);
        if name.is_empty() {
            let mut d = chars_of("Key(");
            let digits = decimal_chars(kc as u64);
            assert(digits@ == decimal(kc as nat));
            append_chars(&mut d, &digits);
            append_chars(&mut d, &chars_of(")"));
            Some((kc, string_of(&d)))
        } else {
            Some((kc, name.to_owned()))
        }
    } else {
        None
    }
}

/// Replaces the hotkey and gives back the new key's name (`""` when it has none).
pub fn update_hotkey(s: &mut HotkeyState, code: i64) -> (r: String)
    ensures
        *final(s) == (HotkeyState { hotkey_code: code, ..*old(s) }),
        r@ == keycode_name_spec(code),
{
    s.hotkey_code = code;
    keycode_name(code).to_owned()
}

pub fn set_double_click_mode(s: &mut HotkeyState, enabled: bool)
    ensures
        *final(s) == (HotkeyState { double_click_mode: enabled, ..*old(s) }),
{
    s.double_click_mode = enabled;
}

/// Forgets a recording the hotkey started, so that its next press starts one.
pub fn reset_hotkey_active_state(s: &mut HotkeyState)
    ensures
        *final(s) == (HotkeyState { active: false, ..*old(s) }),
{
    s.active = false;
}

/// A press and release of a modifier hotkey toggles the recording once: the
/// press toggles, the duplicate key-down some sessions send is swallowed, and
/// the release only marks the key as up.
pub proof fn law_modifier_press_toggles_once(s: HotkeyState, kc: i64, t1: u64, t2: u64, t3: u64)
    requires
        !s.capturing,
        !s.modifier_held,
        !s.suppress_capture_release,
        !s.double_click_mode,
        normalize_keycode(kc) == s.hotkey_code,
        normalize_keycode(kc) != ESC_KEYCODE,
    ensures
        ({
            let (s1, a1) = hotkey_event_spec(s, EVENT_FLAGS_CHANGED, kc, t1);
            let (s2, a2) = hotkey_event_spec(s1, EVENT_KEY_DOWN, kc, t2);
            let (s3, a3) = hotkey_event_spec(s2, EVENT_FLAGS_CHANGED, kc, t3);
            &&& a1 == (if s.active { ActionModel::StopRecording } else { ActionModel::StartRecording })
            &&& a2 == ActionModel::Nothing
            &&& a3 == ActionModel::Nothing
            &&& s3.active == !s.active
            &&& !s3.modifier_held
            &&& !s3.suppress_next_keydown
        }),
{
}

/// Capturing a modifier key swallows that key's release: the event after the
/// capture neither toggles nor changes the recording.
pub proof fn law_capture_release_swallowed(s: HotkeyState, kc: i64, t1: u64, t2: u64)
    requires
        s.capturing,
        is_capturable_modifier(kc),
    ensures
        ({
            let (s1, a1) = hotkey_event_spec(s, EVENT_FLAGS_CHANGED, kc, t1);
            let (s2, a2) = hotkey_event_spec(s1, EVENT_FLAGS_CHANGED, kc, t2);
            &&& a1 == ActionModel::Captured(normalize_keycode(kc), keycode_to_name_spec(normalize_keycode(kc)))
            &&& a2 == ActionModel::Nothing
            &&& s2.active == s.active
            &&& !s2.capturing
            &&& !s2.suppress_capture_release
            &&& s2.captured_key == normalize_keycode(kc)
        }),
{
}

/// In double-click mode a press that does not follow another one within the
/// threshold never toggles the recording; it only becomes the last press.
pub proof fn law_single_press_in_double_click_mode(s: HotkeyState, etype: u32, kc: i64, now: u64)
    requires
        s.double_click_mode,
        !is_double_click(now, s.last_press_ms),
        etype == EVENT_KEY_DOWN || etype == EVENT_FLAGS_CHANGED,
        normalize_keycode(kc) != ESC_KEYCODE,
    ensures
        ({
            let (s1, a) = hotkey_event_spec(s, etype, kc, now);
            &&& s1.active == s.active
            &&& a != ActionModel::StartRecording
            &&& a != ActionModel::StopRecording
        }),
{
}

/// Escape ends a capture without taking a key.
pub proof fn law_escape_cancels_capture(s: HotkeyState, now: u64)
    requires
        s.capturing,
    ensures
        ({
            let (s1, a) = hotkey_event_spec(s, EVENT_KEY_DOWN, ESC_KEYCODE, now);
            &&& a == ActionModel::CaptureCancelled
            &&& !s1.capturing
            &&& s1.captured_key == -1
            &&& s1.active == s.active
        }),
{
}

/// A key press of the hotkey starts a recording and the next one stops it
/// (single-press mode, no duplicate pending).
pub proof fn law_press_twice_starts_then_stops(s: HotkeyState, t1: u64, t2: u64)
    requires
        !s.capturing,
        !s.active,
        !s.double_click_mode,
        !s.suppress_next_keydown,
        s.hotkey_code != ESC_KEYCODE,
        s.hotkey_code != FN_FLAGS_KEYCODE,
    ensures
        ({
            let (s1, a1) = hotkey_event_spec(s, EVENT_KEY_DOWN, s.hotkey_code, t1);
            let (s2, a2) = hotkey_event_spec(s1, EVENT_KEY_DOWN, s.hotkey_code, t2);
            &&& a1 == ActionModel::StartRecording
            &&& s1.active
            &&& a2 == ActionModel::StopRecording
            &&& !s2.active
        }),
{
}

/// Escape during a recording cancels it.
pub proof fn law_escape_cancels_recording(s: HotkeyState, now: u64)
    requires
        !s.capturing,
        s.active,
    ensures
        ({
            let (s1, a) = hotkey_event_spec(s, EVENT_KEY_DOWN, ESC_KEYCODE, now);
            &&& a == ActionModel::CancelRecording
            &&& !s1.active
        }),
{
}

/// Outside a capture, fn reported as keycode 63 and as keycode 179 has the
/// same effect, whatever the event.
pub proof fn law_fn_keycodes_agree(s: HotkeyState, etype: u32, now: u64)
    requires
        !s.capturing,
    ensures
        hotkey_event_spec(s, etype, FN_FLAGS_KEYCODE, now) == hotkey_event_spec(s, etype, FN_KEYCODE, now),
{
}

} // verus!
