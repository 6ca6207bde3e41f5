//! The rules of the settings store: which values are valid, which assets it
//! holds and in what form they come in and go out, and how its revision
//! counter moves.
use vstd::prelude::*;

use crate::text::{
    decimal, digit_char, append_chars, chars_of, is_ascii_alnum, is_ascii_digit, is_lit, slice_chars, string_of, trim,
    trim_chars, utf8_len, utf8_len_at_least,
};

verus! {

/// The largest asset kept: 10 MiB.
pub const MAX_ASSET_BYTES: usize = 10485760;

/// Image types an asset may have.
pub open spec fn allowed_mime(m: Seq<char>) -> bool {
    m == "image/jpeg"@ || m == "image/png"@ || m == "image/webp"@ || m == "image/gif"@
}

pub open spec fn unit_result_view(r: Result<(), String>) -> Result<(), Seq<char>> {
    match r {
        Ok(()) => Ok(()),
        Err(e) => Err(e@),
    }
}

/// The store keeps two assets: the avatar image and the avatar animation.
pub open spec fn asset_key_spec(key: Seq<char>) -> Result<(), Seq<char>> {
    if key == "avatar_image"@ || key == "avatar_gif"@ {
        Ok(())
    } else {
        Err("unknown settings asset"@)
    }
}

pub fn ensure_asset_key(key: &str) -> (r: Result<(), String>)
    ensures
        unit_result_view(r) == asset_key_spec(key@),
{
    let k = chars_of(key);
    if is_lit(&k, "avatar_image") || is_lit(&k, "avatar_gif") {
        Ok(())
    } else {
        Err(string_of(&chars_of("unknown settings asset")))
    }
}

/// What the standard base64 engine decodes `input` to, or `None` when it is
/// not valid standard base64.
pub uninterp spec fn standard_base64_decode(input: Seq<char>) -> Option<Seq<u8>>;

/// What the standard base64 engine (with padding) encodes `data` to.
pub uninterp spec fn standard_base64_encode(data: Seq<u8>) -> Seq<char>;

/// The base64 decoder's error type, carried through opaquely.
#[verifier::external_type_specification]
#[verifier::external_body]
pub struct ExDecodeError(base64::DecodeError);

/// `base64::Engine::decode` with the `STANDARD` engine: the decoded bytes,
/// or the decoder's error; which one is `standard_base64_decode`. That
/// engine accepts only canonical input (padding required, trailing bits
/// zero: `GeneralPurposeConfig::new` and `decode_suffix`), so what it
/// decodes encodes back to exactly the input.
#[verifier::external_body]
pub(crate) fn base64_decode(input: &str) -> (r: Result<Vec<u8>, base64::DecodeError>)
    ensures
        match r {
            Ok(v) => standard_base64_decode(input@) == Some(v@) && standard_base64_encode(v@) == input@,
            Err(_) => standard_base64_decode(input@) is None,
        },
{
    base64::Engine::decode(&base64::engine::general_purpose::STANDARD, input)
}

/// The decoder error's own message (its `Display`); nothing is stated of it.
#[verifier::external_body]
pub(crate) fn decode_error_text(e: &base64::DecodeError) -> (r: String) {
    format!("{}", e)
}

/// `base64::Engine::encode` with the `STANDARD` engine, whose result is
/// `standard_base64_encode`, and which the same engine decodes back to the
/// input (the crate's round-trip tests check exactly this). It only fails
/// to compute a length that overflows, which inputs of at most half the
/// address space never do.
#[verifier::external_body]
fn base64_encode(data: &[u8]) -> (r: String)
    requires
        data@.len() <= usize::MAX / 2,
    ensures
        r@ == standard_base64_encode(data@),
        standard_base64_decode(r@) == Some(data@),
{
    base64::Engine::encode(&base64::engine::general_purpose::STANDARD, data)
}

/// The media type of a data URI's header `data:<mime>;base64`.
pub open spec fn header_mime(h: Seq<char>) -> Option<Seq<char>> {
    if h.len() >= 12 && h.take(5) == "data:"@ && h.skip(h.len() - 7) == ";base64"@ {
        Some(h.subrange(5, h.len() - 7))
    } else {
        None
    }
}

/// A data URI `data:<mime>;base64,<payload>` is split at its first comma;
/// the type must be an allowed image type and the payload valid base64 of at
/// most `MAX_ASSET_BYTES` bytes. The error names the first rule broken
/// (a decoding error carries the decoder's message after its prefix).
pub open spec fn data_uri_ok(value: Seq<char>, mime: Seq<char>, data: Seq<u8>) -> bool {
    exists|k: int| {
        &&& 0 <= k < value.len()
        &&& value[k] == ','
        &&& (forall|j: int| 0 <= j < k ==> value[j] != ',')
        &&& header_mime(value.take(k)) == Some(mime)
        &&& allowed_mime(mime)
        &&& standard_base64_decode(value.skip(k + 1)) == Some(data)
        &&& data.len() <= MAX_ASSET_BYTES
    }
}

/// The error for `value`, when the comma, header and type are as required
/// up to the payload.
pub open spec fn data_uri_error(value: Seq<char>, err: Seq<char>) -> bool {
    if !value.contains(',') {
        err == "asset must be a data URI"@
    } else {
        let k = choose|k: int| 0 <= k < value.len() && value[k] == ',' && forall|j: int| 0 <= j < k ==> value[j] != ',';
        match header_mime(value.take(k)) {
            None => err == "asset must be base64 encoded"@,
            Some(m) => if !allowed_mime(m) {
                err == "unsupported asset type: "@ + m
            } else {
                match standard_base64_decode(value.skip(k + 1)) {
                    None => err.len() >= 20 && err.take(20) == "invalid asset data: "@,
                    Some(d) => d.len() > MAX_ASSET_BYTES && err == "asset exceeds the 10 MB limit"@,
                }
            },
        }
    }
}

fn is_allowed_mime(m: &Vec<char>) -> (r: bool)
    ensures
        r == allowed_mime(m@),
{
    is_lit(m, "image/jpeg") || is_lit(m, "image/png") || is_lit(m, "image/webp") || is_lit(m, "image/gif")
}

/// The first comma of `v`, found from the start.
fn find_comma(v: &Vec<char>) -> (r: Option<usize>)
    ensures
        match r {
            Some(k) => k < v@.len() && v@[k as int] == ',' && forall|j: int| 0 <= j < k ==> v@[j] != ',',
            None => !v@.contains(','),
        },
{
    let mut i: usize = 0;
    while i < v.len()
        invariant
            i <= v.len(),
            forall|j: int| 0 <= j < i ==> v@[j] != ',',
        decreases v.len() - i,
    {
        if v[i] == ',' {
            return Some(i);
        }
        i += 1;
    }
    None
}

fn header_mime_exec(h: &Vec<char>) -> (r: Option<Vec<char>>)
    ensures
        match r {
            Some(m) => header_mime(h@) == Some(m@),
            None => header_mime(h@) is None,
        },
{
    let n = h.len();
    if n < 12 {
        return None;
    }
    let head = slice_chars(h, 0, 5);
    let tail = slice_chars(h, n - 7, n);
    assert(h@.take(5) == h@.subrange(0, 5));
    assert(h@.skip(n - 7) == h@.subrange(n - 7, n as int));
    if !is_lit(&head, "data:") || !is_lit(&tail, ";base64") {
        return None;
    }
    Some(slice_chars(h, 5, n - 7))
}

/// Reads an asset given as a data URI into its type and bytes; see
/// `data_uri_ok` and `data_uri_error`.
pub fn decode_data_uri(value: &str) -> (r: Result<(String, Vec<u8>), String>)
    ensures
        match r {
            Ok((m, d)) => data_uri_ok(value@, m@, d@) && data_uri_of(m@, d@) == value@,
            Err(e) => data_uri_error(value@, e@) && forall|m: Seq<char>, d: Seq<u8>| !data_uri_ok(value@, m, d),
        },
{
    let v = chars_of(value);
    let k = match find_comma(&v) {
        Some(k) => k,
        None => {
            proof {
                assert forall|m: Seq<char>, d: Seq<u8>| !data_uri_ok(value@, m, d) by {
                    if data_uri_ok(value@, m, d) {
                        let k = choose|k: int| {
                            &&& 0 <= k < value@.len()
                            &&& value@[k] == ','
                            &&& (forall|j: int| 0 <= j < k ==> value@[j] != ',')
                            &&& header_mime(value@.take(k)) == Some(m)
                            &&& allowed_mime(m)
                            &&& standard_base64_decode(value@.skip(k + 1)) == Some(d)
                            &&& d.len() <= MAX_ASSET_BYTES
                        };
                        assert(value@.contains(','));
                    }
                }
            }
            return Err(string_of(&chars_of("asset must be a data URI")));
        },
    };
    let ghost kk = k as int;
    proof {
        assert(value@.contains(',')) by {
            assert(value@[kk] == ',');
        }
        let c = choose|k: int| 0 <= k < value@.len() && value@[k] == ',' && forall|j: int| 0 <= j < k ==> value@[j] != ',';
        if c < kk {
            assert(value@[c] != ',');
        } else if c > kk {
            assert(value@[kk] != ',');
        }
        assert(c == kk);
        // any comma position meeting the first-comma condition is `k`
        assert forall|k2: int| 0 <= k2 < value@.len() && value@[k2] == ',' && (forall|j: int| 0 <= j < k2 ==> value@[j] != ',') implies k2 == kk by {
            if k2 < kk {
                assert(value@[k2] != ',');
            } else if k2 > kk {
                assert(value@[kk] != ',');
            }
        }
    }
    let header = slice_chars(&v, 0, k);
    assert(header@ == value@.take(kk));
    let mime = match header_mime_exec(&header) {
        Some(m) => m,
        None => {
            return Err(string_of(&chars_of("asset must be base64 encoded")));
        },
    };
    if !is_allowed_mime(&mime) {
        let mut e = chars_of("unsupported asset type: ");
        append_chars(&mut e, &mime);
        return Err(string_of(&e));
    }
    let payload = string_of(&slice_chars(&v, k + 1, v.len()));
    assert(payload@ == value@.skip(kk + 1));
    let data = match base64_decode(payload.as_str()) {
        Ok(d) => d,
        Err(e) => {
            let mut msg = chars_of("invalid asset data: ");
            append_chars(&mut msg, &chars_of(decode_error_text(&e).as_str()));
            proof {
                reveal_strlit("invalid asset data: ");
                assert(msg@.take(20) =~= "invalid asset data: "@);
            }
            return Err(string_of(&msg));
        },
    };
    if data.len() > MAX_ASSET_BYTES {
        return Err(string_of(&chars_of("asset exceeds the 10 MB limit")));
    }
    proof {
        // the URI is its header, the comma and the canonical payload
        reveal_strlit("data:");
        reveal_strlit(";base64");
        reveal_strlit(";base64,");
        let h = value@.take(kk);
        assert(h =~= "data:"@ + mime@ + ";base64"@) by {
            assert(h.take(5) == "data:"@);
            assert(h.skip(h.len() - 7) == ";base64"@);
            assert forall|j: int| 0 <= j < h.len() implies h[j] == ("data:"@ + mime@ + ";base64"@)[j] by {
                if j < 5 {
                    assert(h[j] == h.take(5)[j]);
                } else if j < h.len() - 7 {
                    assert(h[j] == h.subrange(5, h.len() - 7)[j - 5]);
                } else {
                    assert(h[j] == h.skip(h.len() - 7)[j - (h.len() - 7)]);
                }
            }
        }
        assert(value@ =~= h + seq![','] + value@.skip(kk + 1));
        assert(data_uri_of(mime@, data@) =~= value@);
    }
    Ok((string_of(&mime), data))
}

/// How an asset goes out: `data:<mime>;base64,<payload>`.
pub open spec fn data_uri_of(mime: Seq<char>, data: Seq<u8>) -> Seq<char> {
    "data:"@ + mime + ";base64,"@ + standard_base64_encode(data)
}

/// An allowed media type holds no comma.
proof fn lemma_allowed_mime_has_no_comma(m: Seq<char>)
    requires
        allowed_mime(m),
    ensures
        !m.contains(','),
{
    reveal_strlit("image/jpeg");
    reveal_strlit("image/png");
    reveal_strlit("image/webp");
    reveal_strlit("image/gif");
}

/// Writes an asset as a data URI. An asset that may be stored (an allowed
/// type, at most `MAX_ASSET_BYTES`) comes out as a URI that reads back as
/// that same asset.
pub fn encode_data_uri(mime: &str, data: &[u8]) -> (r: String)
    requires
        data@.len() <= usize::MAX / 2,
    ensures
        r@ == data_uri_of(mime@, data@),
        allowed_mime(mime@) && data@.len() <= MAX_ASSET_BYTES ==> data_uri_ok(r@, mime@, data@),
{
    let mut v = chars_of("data:");
    append_chars(&mut v, &chars_of(mime));
    append_chars(&mut v, &chars_of(";base64,"));
    let enc = base64_encode(data);
    append_chars(&mut v, &chars_of(enc.as_str()));
    proof {
        if allowed_mime(mime@) && data@.len() <= MAX_ASSET_BYTES {
            reveal_strlit("data:");
            reveal_strlit(";base64,");
            reveal_strlit(";base64");
            lemma_allowed_mime_has_no_comma(mime@);
            let u = v@;
            let n = mime@.len() as int;
            let k = 5 + n + 7;
            assert(u[k] == ',');
            assert forall|j: int| 0 <= j < k implies u[j] != ',' by {
                if 5 <= j < 5 + n {
                    assert(u[j] == mime@[j - 5]);
                }
            }
            let h = u.take(k);
            assert(h.take(5) =~= "data:"@);
            assert(h.skip(h.len() - 7) =~= ";base64"@);
            assert(h.subrange(5, h.len() - 7) =~= mime@);
            assert(u.skip(k + 1) =~= enc@);
        }
    }
    string_of(&v)
}

/// A data URI names one asset at most: its first comma, header and payload
/// fix the type and the bytes.
pub proof fn law_data_uri_names_one_asset(v: Seq<char>, m1: Seq<char>, d1: Seq<u8>, m2: Seq<char>, d2: Seq<u8>)
    requires
        data_uri_ok(v, m1, d1),
        data_uri_ok(v, m2, d2),
    ensures
        m1 == m2,
        d1 == d2,
{
    let k1 = choose|k: int| {
        &&& 0 <= k < v.len()
        &&& v[k] == ','
        &&& (forall|j: int| 0 <= j < k ==> v[j] != ',')
        &&& header_mime(v.take(k)) == Some(m1)
        &&& allowed_mime(m1)
        &&& standard_base64_decode(v.skip(k + 1)) == Some(d1)
        &&& d1.len() <= MAX_ASSET_BYTES
    };
    let k2 = choose|k: int| {
        &&& 0 <= k < v.len()
        &&& v[k] == ','
        &&& (forall|j: int| 0 <= j < k ==> v[j] != ',')
        &&& header_mime(v.take(k)) == Some(m2)
        &&& allowed_mime(m2)
        &&& standard_base64_decode(v.skip(k + 1)) == Some(d2)
        &&& d2.len() <= MAX_ASSET_BYTES
    };
    if k1 < k2 {
        assert(v[k1] != ',');
    } else if k2 < k1 {
        assert(v[k2] != ',');
    }
}

/// The value of a decimal numeral, as `str::parse::<u64>` reads it: an
/// optional `+`, then one or more digits, no overflow.
pub open spec fn digits_value(s: Seq<char>) -> int
    decreases s.len(),
{
    if s.len() == 0 {
        0
    } else {
        digits_value(s.drop_last()) * 10 + (s.last() as int - '0' as int)
    }
}

pub open spec fn all_digits(s: Seq<char>) -> bool {
    forall|i: int| 0 <= i < s.len() ==> is_ascii_digit(#[trigger] s[i])
}

pub open spec fn parse_u64_spec(s: Seq<char>) -> Option<u64> {
    let d = if s.len() > 0 && s[0] == '+' { s.drop_first() } else { s };
    if d.len() > 0 && all_digits(d) && digits_value(d) <= u64::MAX {
        Some(digits_value(d) as u64)
    } else {
        None
    }
}

proof fn lemma_digits_value_nonneg(s: Seq<char>)
    requires
        all_digits(s),
    ensures
        digits_value(s) >= 0,
    decreases s.len(),
{
    if s.len() > 0 {
        lemma_digits_value_nonneg(s.drop_last());
        assert(is_ascii_digit(s[s.len() - 1]));
    }
}

proof fn lemma_digits_value_grows(s: Seq<char>, k: int)
    requires
        all_digits(s),
        0 <= k <= s.len(),
    ensures
        digits_value(s.take(k)) <= digits_value(s),
    decreases s.len() - k,
{
    if k < s.len() {
        lemma_digits_value_grows(s, k + 1);
        assert(s.take(k + 1).drop_last() =~= s.take(k));
        assert(all_digits(s.take(k)));
        lemma_digits_value_nonneg(s.take(k));
        assert(is_ascii_digit(s[k]));
    } else {
        assert(s.take(k) =~= s);
    }
}

/// Reads a stored number the way `str::parse::<u64>` does.
pub fn parse_u64(s: &str) -> (r: Option<u64>)
    ensures
        r == parse_u64_spec(s@),
{
    let v = chars_of(s);
    let start: usize = if v.len() > 0 && v[0] == '+' { 1 } else { 0 };
    let ghost d = if v@.len() > 0 && v@[0] == '+' { v@.drop_first() } else { v@ };
    assert(d =~= v@.skip(start as int));
    if start >= v.len() {
        return None;
    }
    let mut acc: u64 = 0;
    let mut i = start;
    while i < v.len()
        invariant
            start <= i <= v.len(),
            start < v.len(),
            v@ == s@,
            d == v@.skip(start as int),
            d == (if s@.len() > 0 && s@[0] == '+' { s@.drop_first() } else { s@ }),
            d.len() > 0,
            all_digits(d.take(i - start)),
            acc == digits_value(d.take(i - start)),
        decreases v.len() - i,
    {
        let c = v[i];
        let ghost k = i - start;
        assert(d[k] == v@[i as int]);
        assert(d.take(k + 1).drop_last() =~= d.take(k));
        if !('0' <= c && c <= '9') {
            proof {
                assert(!all_digits(d)) by {
                    assert(!is_ascii_digit(d[k]));
                }
            }
            return None;
        }
        let digit: u64 = if c == '0' { 0 } else if c == '1' { 1 } else if c == '2' { 2 } else if c == '3' { 3 }
            else if c == '4' { 4 } else if c == '5' { 5 } else if c == '6' { 6 } else if c == '7' { 7 }
            else if c == '8' { 8 } else { 9 };
        assert(digit == c as int - '0' as int);
        if acc > (u64::MAX - digit) / 10 {
            proof {
                assert(all_digits(d.take(k + 1)));
                assert(digits_value(d.take(k + 1)) == acc * 10 + digit);
                assert(acc * 10 + digit > u64::MAX) by (nonlinear_arith)
                    requires acc > (u64::MAX - digit) / 10, digit <= 9;
                if all_digits(d) {
                    lemma_digits_value_grows(d, k + 1);
                }
            }
            return None;
        }
        assert(acc * 10 + digit <= u64::MAX) by (nonlinear_arith)
            requires acc <= (u64::MAX - digit) / 10, digit <= 9;
        acc = acc * 10 + digit;
        assert(all_digits(d.take(k + 1)));
        i += 1;
    }
    assert(d.take(v.len() - start) =~= d);
    Some(acc)
}

/// The revision after a change: one more than the stored one (a missing or
/// unreadable one counts as 0), never wrapping.
pub open spec fn next_revision_spec(stored: Option<Seq<char>>) -> u64 {
    let current = match stored {
        Some(s) => match parse_u64_spec(s) {
            Some(n) => n,
            None => 0,
        },
        None => 0,
    };
    if current == u64::MAX {
        u64::MAX
    } else {
        (current + 1) as u64
    }
}

pub fn next_revision(stored: Option<&str>) -> (r: u64)
    ensures
        r == next_revision_spec(match stored {
            Some(s) => Some(s@),
            None => None,
        }),
{
    let current = match stored {
        Some(s) => match parse_u64(s) {
            Some(n) => n,
            None => 0,
        },
        None => 0,
    };
    current.saturating_add(1)
}

/// The settings values checked before anything is stored (the ranges of the
/// fractional ones come checked).
pub struct ConfigFields {
    pub character_skin: String,
    pub dialog_style: String,
    pub tts_format: String,
    pub tts_primary_voice: String,
    pub fixed_lang: String,
    pub ui_lang: String,
    pub hotkey_code: i64,
    pub hotkey_name: String,
    pub silence_timeout_secs: u32,
    pub pause_tolerance_ms: u32,
    pub last_enrolled_speaker: String,
    /// The volume is within 0 to 1.
    pub volume_in_range: bool,
    /// The speech, barge-in and wake thresholds are within their ranges.
    pub thresholds_in_range: bool,
}

pub open spec fn one_of(s: Seq<char>, options: Seq<Seq<char>>) -> bool {
    options.contains(s)
}

pub open spec fn valid_speaker_name(n: Seq<char>) -> bool {
    utf8_len(n) <= 32 && (n.len() == 0 || forall|i: int| 0 <= i < n.len() ==> is_ascii_alnum(#[trigger] n[i]) || n[i] == '_' || n[i] == '-')
}

/// The first rule a configuration breaks, or `Ok`.
pub open spec fn validate_spec(c: ConfigFields) -> Result<(), Seq<char>> {
    if !c.volume_in_range {
        Err("volume must be between 0 and 1"@)
    } else if !one_of(c.character_skin@, seq!["default-css"@, "rive"@, "lottie"@]) {
        Err("invalid character skin"@)
    } else if !one_of(c.dialog_style@, seq!["bubble"@, "tv"@, "terminal"@]) {
        Err("invalid dialog style"@)
    } else if !one_of(c.tts_format@, seq!["wav"@, "mp3"@]) {
        Err("invalid TTS format"@)
    } else if trim(c.tts_primary_voice@).len() == 0 {
        Err("primary voice is required"@)
    } else if !one_of(c.fixed_lang@, seq![""@, "primary"@, "aux1"@, "aux2"@]) {
        Err("invalid fixed language selection"@)
    } else if !one_of(c.ui_lang@, seq!["zh"@, "en"@, "ja"@, "ko"@, "fr"@, "de"@, "es"@]) {
        Err("invalid UI language"@)
    } else if !(0 <= c.hotkey_code <= 255) || utf8_len(c.hotkey_name@) > 64 {
        Err("invalid hotkey"@)
    } else if !(3 <= c.silence_timeout_secs <= 10) || !(500 <= c.pause_tolerance_ms <= 5000)
        || !c.thresholds_in_range {
        Err("one or more voice thresholds are out of range"@)
    } else if !valid_speaker_name(c.last_enrolled_speaker@) {
        Err("invalid enrolled speaker name"@)
    } else {
        Ok(())
    }
}

fn speaker_chars_ok(v: &Vec<char>) -> (r: bool)
    ensures
        r == (forall|i: int| 0 <= i < v@.len() ==> is_ascii_alnum(#[trigger] v@[i]) || v@[i] == '_' || v@[i] == '-'),
{
    let mut i: usize = 0;
    while i < v.len()
        invariant
            i <= v.len(),
            forall|j: int| 0 <= j < i ==> is_ascii_alnum(#[trigger] v@[j]) || v@[j] == '_' || v@[j] == '-',
        decreases v.len() - i,
    {
        let c = v[i];
        let ok = ('0' <= c && c <= '9') || ('a' <= c && c <= 'z') || ('A' <= c && c <= 'Z') || c == '_' || c == '-';
        if !ok {
            return false;
        }
        i += 1;
    }
    true
}

fn err(msg: &str) -> (r: Result<(), String>)
    ensures
        unit_result_view(r) == Err::<(), Seq<char>>(msg@),
{
    Err(msg.to_owned())
}

/// Checks a configuration before it is stored; see `validate_spec`.
pub fn validate(c: &ConfigFields) -> (r: Result<(), String>)
    ensures
        unit_result_view(r) == validate_spec(*c),
{
    proof {
        reveal_strlit("");
    }
    if !c.volume_in_range {
        return err("volume must be between 0 and 1");
    }
    let skin = chars_of(c.character_skin.as_str());
    if !(is_lit(&skin, "default-css") || is_lit(&skin, "rive") || is_lit(&skin, "lottie")) {
        assert(!seq!["default-css"@, "rive"@, "lottie"@].contains(skin@)) by {
            if seq!["default-css"@, "rive"@, "lottie"@].contains(skin@) {
                let i = choose|i: int| 0 <= i < 3 && seq!["default-css"@, "rive"@, "lottie"@][i] == skin@;
            }
        }
        return err("invalid character skin");
    }
    assert(seq!["default-css"@, "rive"@, "lottie"@].contains(skin@)) by {
        if skin@ == "default-css"@ { assert(seq!["default-css"@, "rive"@, "lottie"@][0] == skin@); }
        else if skin@ == "rive"@ { assert(seq!["default-css"@, "rive"@, "lottie"@][1] == skin@); }
        else { assert(seq!["default-css"@, "rive"@, "lottie"@][2] == skin@); }
    }
    let style = chars_of(c.dialog_style.as_str());
    if !(is_lit(&style, "bubble") || is_lit(&style, "tv") || is_lit(&style, "terminal")) {
        assert(!seq!["bubble"@, "tv"@, "terminal"@].contains(style@)) by {
            if seq!["bubble"@, "tv"@, "terminal"@].contains(style@) {
                let i = choose|i: int| 0 <= i < 3 && seq!["bubble"@, "tv"@, "terminal"@][i] == style@;
            }
        }
        return err("invalid dialog style");
    }
    assert(seq!["bubble"@, "tv"@, "terminal"@].contains(style@)) by {
        if style@ == "bubble"@ { assert(seq!["bubble"@, "tv"@, "terminal"@][0] == style@); }
        else if style@ == "tv"@ { assert(seq!["bubble"@, "tv"@, "terminal"@][1] == style@); }
        else { assert(seq!["bubble"@, "tv"@, "terminal"@][2] == style@); }
    }
    let fmt = chars_of(c.tts_format.as_str());
    if !(is_lit(&fmt, "wav") || is_lit(&fmt, "mp3")) {
        assert(!seq!["wav"@, "mp3"@].contains(fmt@)) by {
            if seq!["wav"@, "mp3"@].contains(fmt@) {
                let i = choose|i: int| 0 <= i < 2 && seq!["wav"@, "mp3"@][i] == fmt@;
            }
        }
        return err("invalid TTS format");
    }
    assert(seq!["wav"@, "mp3"@].contains(fmt@)) by {
        if fmt@ == "wav"@ { assert(seq!["wav"@, "mp3"@][0] == fmt@); }
        else { assert(seq!["wav"@, "mp3"@][1] == fmt@); }
    }
    if trim_chars(c.tts_primary_voice.as_str()).len() == 0 {
        return err("primary voice is required");
    }
    let fixed = chars_of(c.fixed_lang.as_str());
    if !(fixed.len() == 0 || is_lit(&fixed, "primary") || is_lit(&fixed, "aux1") || is_lit(&fixed, "aux2")) {
        assert(!seq![""@, "primary"@, "aux1"@, "aux2"@].contains(fixed@)) by {
            if seq![""@, "primary"@, "aux1"@, "aux2"@].contains(fixed@) {
                let i = choose|i: int| 0 <= i < 4 && seq![""@, "primary"@, "aux1"@, "aux2"@][i] == fixed@;
            }
        }
        return err("invalid fixed language selection");
    }
    assert(seq![""@, "primary"@, "aux1"@, "aux2"@].contains(fixed@)) by {
        if fixed@.len() == 0 { assert(seq![""@, "primary"@, "aux1"@, "aux2"@][0] =~= fixed@); }
        else if fixed@ == "primary"@ { assert(seq![""@, "primary"@, "aux1"@, "aux2"@][1] == fixed@); }
        else if fixed@ == "aux1"@ { assert(seq![""@, "primary"@, "aux1"@, "aux2"@][2] == fixed@); }
        else { assert(seq![""@, "primary"@, "aux1"@, "aux2"@][3] == fixed@); }
    }
    let ui = chars_of(c.ui_lang.as_str());
    let ghost langs = seq!["zh"@, "en"@, "ja"@, "ko"@, "fr"@, "de"@, "es"@];
    if !(is_lit(&ui, "zh") || is_lit(&ui, "en") || is_lit(&ui, "ja") || is_lit(&ui, "ko") || is_lit(&ui, "fr")
        || is_lit(&ui, "de") || is_lit(&ui, "es")) {
        assert(!langs.contains(ui@)) by {
            if langs.contains(ui@) {
                let i = choose|i: int| 0 <= i < 7 && langs[i] == ui@;
            }
        }
        return err("invalid UI language");
    }
    assert(langs.contains(ui@)) by {
        if ui@ == "zh"@ { assert(langs[0] == ui@); }
        else if ui@ == "en"@ { assert(langs[1] == ui@); }
        else if ui@ == "ja"@ { assert(langs[2] == ui@); }
        else if ui@ == "ko"@ { assert(langs[3] == ui@); }
        else if ui@ == "fr"@ { assert(langs[4] == ui@); }
        else if ui@ == "de"@ { assert(langs[5] == ui@); }
        else { assert(langs[6] == ui@); }
    }
    if !(0 <= c.hotkey_code && c.hotkey_code <= 255) || utf8_len_at_least(&chars_of(c.hotkey_name.as_str()), 65) {
        return err("invalid hotkey");
    }
    if !(3 <= c.silence_timeout_secs && c.silence_timeout_secs <= 10) || !(500 <= c.pause_tolerance_ms
        && c.pause_tolerance_ms <= 5000) || !c.thresholds_in_range {
        return err("one or more voice thresholds are out of range");
    }
    let speaker = chars_of(c.last_enrolled_speaker.as_str());
    if utf8_len_at_least(&speaker, 33) || (speaker.len() > 0 && !speaker_chars_ok(&speaker)) {
        return err("invalid enrolled speaker name");
    }
    Ok(())
}


proof fn lemma_digit_char(d: nat)
    requires
        d < 10,
    ensures
        digit_char(d) as int - '0' as int == d,
        is_ascii_digit(digit_char(d)),
        digit_char(d) != '+',
{
    if d == 0 {} else if d == 1 {} else if d == 2 {} else if d == 3 {} else if d == 4 {}
    else if d == 5 {} else if d == 6 {} else if d == 7 {} else if d == 8 {} else {}
}

proof fn lemma_decimal_reads_back(n: nat)
    ensures
        decimal(n).len() > 0,
        decimal(n)[0] != '+',
        all_digits(decimal(n)),
        digits_value(decimal(n)) == n,
    decreases n,
{
    if n < 10 {
        lemma_digit_char(n);
        assert(decimal(n) == seq![digit_char(n)]);
        assert(seq![digit_char(n)].drop_last() =~= Seq::<char>::empty());
        assert(digits_value(Seq::<char>::empty()) == 0);
        assert(digits_value(decimal(n)) == digits_value(decimal(n).drop_last()) * 10 + (decimal(n).last() as int - '0' as int));
    } else {
        lemma_decimal_reads_back(n / 10);
        lemma_digit_char(n % 10);
        let d = decimal(n);
        assert(d == decimal(n / 10).push(digit_char(n % 10)));
        assert(d.drop_last() =~= decimal(n / 10));
        assert(d.last() == digit_char(n % 10));
        assert(digits_value(d) == digits_value(d.drop_last()) * 10 + (d.last() as int - '0' as int));
        assert((n / 10) * 10 + n % 10 == n);
        assert(d[0] == decimal(n / 10)[0]);
        assert forall|i: int| 0 <= i < d.len() implies is_ascii_digit(#[trigger] d[i]) by {
            if i < d.len() - 1 {
                assert(d[i] == decimal(n / 10)[i]);
            }
        }
    }
}

/// A revision written in decimal reads back as itself, so saving moves the
/// stored revision on by exactly one (until the counter is full).
pub proof fn law_revision_round_trip(n: u64)
    ensures
        parse_u64_spec(decimal(n as nat)) == Some(n),
        n < u64::MAX ==> next_revision_spec(Some(decimal(n as nat))) == n + 1,
        n == u64::MAX ==> next_revision_spec(Some(decimal(n as nat))) == n,
{
    lemma_decimal_reads_back(n as nat);
}

/// A missing or unreadable revision counts as 0, so the first save makes it 1.
pub proof fn law_first_revision()
    ensures
        next_revision_spec(None) == 1,
{
}


pub open spec fn stored_view(stored: Option<(String, Vec<u8>)>) -> Option<(Seq<char>, Seq<u8>)> {
    match stored {
        Some((m, d)) => Some((m@, d@)),
        None => None,
    }
}

pub open spec fn opt_string_view(o: Option<String>) -> Option<Seq<char>> {
    match o {
        Some(s) => Some(s@),
        None => None,
    }
}

/// An asset as the settings window reads it: `stored` is what the store
/// holds under `key` (its type and bytes); it goes out as a data URI.
pub fn get_asset(key: &str, stored: Option<(String, Vec<u8>)>) -> (r: Result<Option<String>, String>)
    requires
        stored matches Some((_, d)) ==> d@.len() <= usize::MAX / 2,
    ensures
        asset_key_spec(key@) is Err ==> r is Err && Err::<(), Seq<char>>(r->Err_0@) == asset_key_spec(key@),
        asset_key_spec(key@) is Ok ==> r is Ok && opt_string_view(r->Ok_0) == match stored_view(stored) {
            Some((m, d)) => Some(data_uri_of(m, d)),
            None => None,
        },
        // an asset that could have been stored reads back as a URI naming it
        asset_key_spec(key@) is Ok ==> match stored_view(stored) {
            Some((m, d)) => allowed_mime(m) && d.len() <= MAX_ASSET_BYTES ==> data_uri_ok(
                r->Ok_0->Some_0@,
                m,
                d,
            ),
            None => true,
        },
{
    match ensure_asset_key(key) {
        Err(e) => Err(e),
        Ok(()) => match stored {
            Some((mime, data)) => Ok(Some(encode_data_uri(mime.as_str(), data.as_slice()))),
            None => Ok(None),
        },
    }
}

/// What saving an asset stores: its type and bytes, read from the data URI
/// once the key is known to be an asset's. What is stored writes out as the
/// very URI that was saved (`data_uri_of`, which `get_asset` gives back), so
/// an asset reads back as the string it was saved as.
pub fn asset_to_store(key: &str, data_uri: &str) -> (r: Result<(String, Vec<u8>), String>)
    ensures
        asset_key_spec(key@) is Err ==> r is Err && Err::<(), Seq<char>>(r->Err_0@) == asset_key_spec(key@),
        asset_key_spec(key@) is Ok ==> match r {
            Ok((m, d)) => data_uri_ok(data_uri@, m@, d@) && data_uri_of(m@, d@) == data_uri@,
            Err(e) => data_uri_error(data_uri@, e@) && forall|m: Seq<char>, d: Seq<u8>| !data_uri_ok(data_uri@, m, d),
        },
{
    match ensure_asset_key(key) {
        Err(e) => Err(e),
        Ok(()) => decode_data_uri(data_uri),
    }
}

/// Deleting an asset: refused for a key that is not an asset's; otherwise
/// the store's revision moves on from `stored_revision`.
pub fn delete_asset(key: &str, stored_revision: Option<&str>) -> (r: Result<u64, String>)
    ensures
        asset_key_spec(key@) is Err ==> r is Err && Err::<(), Seq<char>>(r->Err_0@) == asset_key_spec(key@),
        asset_key_spec(key@) is Ok ==> r == Ok::<u64, String>(next_revision_spec(match stored_revision {
            Some(s) => Some(s@),
            None => None,
        })),
{
    match ensure_asset_key(key) {
        Err(e) => Err(e),
        Ok(()) => Ok(next_revision(stored_revision)),
    }
}

} // verus!
