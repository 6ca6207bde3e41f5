//! The reply's command-tag grammar: `[CMD:...]` tags that ask for a local
//! command, the `[LOCAL_CMD ...]` form, the leftovers a model sometimes writes
//! (`CMD]...`, status lines such as `OK ...`), and the clean-up of spaces and
//! blank lines after they are cut out.
//!
//! Each rule is a pattern matched left to right, without overlaps, each match
//! being replaced by a fixed text.
use vstd::prelude::*;

use crate::text::{
    append_chars, chars_of, contains, is_ws, is_ws_char, lemma_trim_end_shape, lemma_trim_idempotent, lemma_trim_start_shape,
    occurs_at, occurs_at_exec, string_of, trim, trim_end, trim_start, trim_range,
};

verus! {

#[derive(Clone, Copy, PartialEq, Eq, Structural)]
pub enum TagPattern {
    /// `[CMD:` then one or more characters other than `]`, then `]`.
    CmdTag,
    /// `[CMD:` then any characters other than `]`, then `]`.
    CmdTagMaybeEmpty,
    /// `[LOCAL_CMD`, then the shortest run of any characters up to a `]`.
    LocalCmd,
    /// `CMD]` and the rest of its line.
    CmdResidue,
    /// At the start of a line, `executing:`, `OK`, `ERROR` or `FAILED`, one
    /// white-space character, the rest of the line and its line break.
    StatusLine,
    /// Two or more spaces.
    SpaceRun,
    /// Three or more line breaks.
    BlankLines,
}

/// The first `j >= i` with `s[j] == c`, or -1.
pub open spec fn first_from(s: Seq<char>, i: int, c: char) -> int
    decreases s.len() - i,
{
    if i < 0 || i >= s.len() {
        -1
    } else if s[i] == c {
        i
    } else {
        first_from(s, i + 1, c)
    }
}

/// Length of the run of `c` that starts at `i`.
pub open spec fn run_len(s: Seq<char>, i: int, c: char) -> nat
    decreases s.len() - i,
{
    if 0 <= i < s.len() && s[i] == c {
        1 + run_len(s, i + 1, c)
    } else {
        0
    }
}

pub open spec fn status_keyword_len(s: Seq<char>, i: int) -> nat {
    if occurs_at(s, "executing:"@, i) {
        10
    } else if occurs_at(s, "OK"@, i) {
        2
    } else if occurs_at(s, "ERROR"@, i) {
        5
    } else if occurs_at(s, "FAILED"@, i) {
        6
    } else {
        0
    }
}

/// Length of the match of `p` that starts at `i`, or 0 when none starts there.
pub open spec fn match_len(p: TagPattern, s: Seq<char>, i: int) -> nat {
    match p {
        TagPattern::CmdTag => {
            let close = first_from(s, i + 5, ']');
            if occurs_at(s, "[CMD:"@, i) && close > i + 5 {
                (close - i + 1) as nat
            } else {
                0
            }
        },
        TagPattern::CmdTagMaybeEmpty => {
            let close = first_from(s, i + 5, ']');
            if occurs_at(s, "[CMD:"@, i) && close >= i + 5 {
                (close - i + 1) as nat
            } else {
                0
            }
        },
        TagPattern::LocalCmd => {
            let close = first_from(s, i + 10, ']');
            if occurs_at(s, "[LOCAL_CMD"@, i) && close >= i + 10 {
                (close - i + 1) as nat
            } else {
                0
            }
        },
        TagPattern::CmdResidue => {
            let nl = first_from(s, i + 4, '\n');
            if occurs_at(s, "CMD]"@, i) {
                if nl < 0 {
                    (s.len() - i) as nat
                } else {
                    (nl - i) as nat
                }
            } else {
                0
            }
        },
        TagPattern::StatusLine => {
            let k = status_keyword_len(s, i);
            let nl = first_from(s, i + k + 1, '\n');
            if (i == 0 || (0 < i <= s.len() && s[i - 1] == '\n')) && k > 0 && i + k < s.len() && is_ws(
                s[i + k],
            ) {
                if nl < 0 {
                    (s.len() - i) as nat
                } else {
                    (nl + 1 - i) as nat
                }
            } else {
                0
            }
        },
        TagPattern::SpaceRun => {
            if run_len(s, i, ' ') >= 2 {
                run_len(s, i, ' ')
            } else {
                0
            }
        },
        TagPattern::BlankLines => {
            if run_len(s, i, '\n') >= 3 {
                run_len(s, i, '\n')
            } else {
                0
            }
        },
    }
}

/// A position after a match; matches never run past the end.
pub open spec fn clamp_next(s: Seq<char>, j: int) -> int {
    if j > s.len() {
        s.len() as int
    } else {
        j
    }
}

/// `s` from `i` on with every match of `p` replaced by `rep`.
pub open spec fn replace_from(p: TagPattern, s: Seq<char>, i: int, rep: Seq<char>) -> Seq<char>
    decreases s.len() - i,
{
    if i < 0 || i >= s.len() {
        Seq::empty()
    } else if match_len(p, s, i) > 0 {
        rep + replace_from(p, s, clamp_next(s, i + match_len(p, s, i)), rep)
    } else {
        seq![s[i]] + replace_from(p, s, i + 1, rep)
    }
}

pub open spec fn replace_all(p: TagPattern, s: Seq<char>, rep: Seq<char>) -> Seq<char> {
    replace_from(p, s, 0, rep)
}

fn first_from_exec(s: &Vec<char>, i: usize, c: char) -> (r: Option<usize>)
    ensures
        match r {
            Some(j) => first_from(s@, i as int, c) == j as int,
            None => first_from(s@, i as int, c) == -1,
        },
    decreases s.len() - i,
{
    if i >= s.len() {
        None
    } else if s[i] == c {
        Some(i)
    } else {
        first_from_exec(s, i + 1, c)
    }
}

proof fn lemma_first_from_range(s: Seq<char>, i: int, c: char)
    requires
        0 <= i,
    ensures
        first_from(s, i, c) == -1 || (i <= first_from(s, i, c) < s.len() && s[first_from(s, i, c)] == c),
    decreases s.len() - i,
{
    if i < s.len() && s[i] != c {
        lemma_first_from_range(s, i + 1, c);
    }
}

fn run_len_exec(s: &Vec<char>, i: usize, c: char) -> (r: usize)
    ensures
        r == run_len(s@, i as int, c),
        i + r <= s.len() || r == 0,
    decreases s.len() - i,
{
    if i < s.len() && s[i] == c {
        1 + run_len_exec(s, i + 1, c)
    } else {
        0
    }
}

fn lit_at(s: &Vec<char>, lit: &str, i: usize) -> (r: bool)
    ensures
        r == occurs_at(s@, lit@, i as int),
{
    occurs_at_exec(s, &chars_of(lit), i)
}

fn match_len_exec(p: TagPattern, s: &Vec<char>, i: usize) -> (r: usize)
    requires
        i < s.len(),
    ensures
        r == match_len(p, s@, i as int),
        i + r <= s.len(),
{
    proof {
        reveal_strlit("[CMD:");
        reveal_strlit("[LOCAL_CMD");
        reveal_strlit("CMD]");
        reveal_strlit("executing:");
        reveal_strlit("OK");
        reveal_strlit("ERROR");
        reveal_strlit("FAILED");
    }
    match p {
        TagPattern::CmdTag | TagPattern::CmdTagMaybeEmpty => {
            if !lit_at(s, "[CMD:", i) {
                return 0;
            }
            proof {
                lemma_first_from_range(s@, i + 5, ']');
            }
            match first_from_exec(s, i + 5, ']') {
                Some(close) => {
                    if close > i + 5 || (p == TagPattern::CmdTagMaybeEmpty && close == i + 5) {
                        close - i + 1
                    } else {
                        0
                    }
                },
                None => 0,
            }
        },
        TagPattern::LocalCmd => {
            if !lit_at(s, "[LOCAL_CMD", i) {
                return 0;
            }
            proof {
                lemma_first_from_range(s@, i + 10, ']');
            }
            match first_from_exec(s, i + 10, ']') {
                Some(close) => close - i + 1,
                None => 0,
            }
        },
        TagPattern::CmdResidue => {
            if !lit_at(s, "CMD]", i) {
                return 0;
            }
            proof {
                lemma_first_from_range(s@, i + 4, '\n');
            }
            match first_from_exec(s, i + 4, '\n') {
                Some(nl) => nl - i,
                None => s.len() - i,
            }
        },
        TagPattern::StatusLine => {
            let at_line_start = i == 0 || s[i - 1] == '\n';
            if !at_line_start {
                return 0;
            }
            let k: usize = if lit_at(s, "executing:", i) {
                10
            } else if lit_at(s, "OK", i) {
                2
            } else if lit_at(s, "ERROR", i) {
                5
            } else if lit_at(s, "FAILED", i) {
                6
            } else {
                0
            };
            if k == 0 || i + k >= s.len() || !is_ws_char(s[i + k]) {
                return 0;
            }
            proof {
                lemma_first_from_range(s@, i + k + 1, '\n');
            }
            match first_from_exec(s, i + k + 1, '\n') {
                Some(nl) => nl + 1 - i,
                None => s.len() - i,
            }
        },
        TagPattern::SpaceRun => {
            let n = run_len_exec(s, i, ' ');
            if n >= 2 {
                n
            } else {
                0
            }
        },
        TagPattern::BlankLines => {
            let n = run_len_exec(s, i, '\n');
            if n >= 3 {
                n
            } else {
                0
            }
        },
    }
}

/// Replaces every match of `p` in `s` by `rep`, scanning left to right.
pub fn replace_pattern(p: TagPattern, s: &Vec<char>, rep: &[char]) -> (r: Vec<char>)
    ensures
        r@ == replace_all(p, s@, rep@),
{
    let mut out: Vec<char> = Vec::new();
    let mut i: usize = 0;
    while i < s.len()
        invariant
            i <= s.len(),
            out@ + replace_from(p, s@, i as int, rep@) == replace_all(p, s@, rep@),
        decreases s.len() - i,
    {
        let m = match_len_exec(p, s, i);
        let ghost before = out@;
        if m > 0 {
            append_chars(&mut out, rep);
            assert(before + replace_from(p, s@, i as int, rep@) =~= out@ + replace_from(p, s@, (i + m) as int, rep@));
            i += m;
        } else {
            out.push(s[i]);
            assert(before + replace_from(p, s@, i as int, rep@) =~= out@ + replace_from(p, s@, (i + 1) as int, rep@));
            i += 1;
        }
    }
    assert(out@ + Seq::<char>::empty() =~= out@);
    out
}

/// What is left of a reply once its `[CMD:...]` tags are cut out: trimmed,
/// with runs of spaces made single.
pub open spec fn without_cmd_tags(s: Seq<char>) -> Seq<char> {
    replace_all(TagPattern::SpaceRun, trim(replace_all(TagPattern::CmdTag, s, Seq::empty())), " "@)
}

/// Removes `[CMD:...]` tags from `text` without running them.
pub fn strip_cmd_tags(text: &str) -> (r: String)
    ensures
        r@ == without_cmd_tags(text@),
{
    let v = chars_of(text);
    let empty: Vec<char> = Vec::new();
    let cut = replace_pattern(TagPattern::CmdTag, &v, &empty);
    assert(cut@.subrange(0, cut@.len() as int) =~= cut@);
    let trimmed = trim_range(&cut, 0, cut.len());
    let r = replace_pattern(TagPattern::SpaceRun, &trimmed, &chars_of(" "));
    string_of(&r)
}

/// The text of a reply with every trace of local commands removed, for the
/// chat box and for speech: `[LOCAL_CMD ...]` and `[CMD:...]` tags, stray
/// `CMD]...` endings and status lines, then runs of spaces made single, runs
/// of three or more line breaks made two, and the ends trimmed.
pub open spec fn without_any_cmd(s: Seq<char>) -> Seq<char> {
    let a = replace_all(TagPattern::LocalCmd, s, Seq::empty());
    let b = replace_all(TagPattern::CmdTagMaybeEmpty, a, Seq::empty());
    let c = replace_all(TagPattern::CmdResidue, b, Seq::empty());
    let d = replace_all(TagPattern::StatusLine, c, Seq::empty());
    let e = replace_all(TagPattern::SpaceRun, d, " "@);
    let f = replace_all(TagPattern::BlankLines, e, "\n\n"@);
    trim(f)
}

pub fn strip_all_cmd_tags(text: &str) -> (r: String)
    ensures
        r@ == without_any_cmd(text@),
{
    let v = chars_of(text);
    let empty: Vec<char> = Vec::new();
    let a = replace_pattern(TagPattern::LocalCmd, &v, &empty);
    let b = replace_pattern(TagPattern::CmdTagMaybeEmpty, &a, &empty);
    let c = replace_pattern(TagPattern::CmdResidue, &b, &empty);
    let d = replace_pattern(TagPattern::StatusLine, &c, &empty);
    let e = replace_pattern(TagPattern::SpaceRun, &d, &chars_of(" "));
    let f = replace_pattern(TagPattern::BlankLines, &e, &chars_of("\n\n"));
    assert(f@.subrange(0, f@.len() as int) =~= f@);
    let t = trim_range(&f, 0, f.len());
    string_of(&t)
}

/// The commands inside the `[CMD:...]` tags of `s` from `i` on, in order.
pub open spec fn commands_from(s: Seq<char>, i: int) -> Seq<Seq<char>>
    decreases s.len() - i,
{
    if i < 0 || i >= s.len() {
        Seq::empty()
    } else if match_len(TagPattern::CmdTag, s, i) > 0 {
        let m = match_len(TagPattern::CmdTag, s, i) as int;
        seq![s.subrange(i + 5, i + m - 1)] + commands_from(s, clamp_next(s, i + m))
    } else {
        commands_from(s, i + 1)
    }
}

/// The commands that a reply's `[CMD:...]` tags ask for, in order.
pub fn cmd_tag_commands(text: &str) -> (r: Vec<String>)
    ensures
        r@.map_values(|x: String| x@) == commands_from(text@, 0),
{
    let s = chars_of(text);
    let mut out: Vec<String> = Vec::new();
    let mut i: usize = 0;
    while i < s.len()
        invariant
            i <= s.len(),
            out@.map_values(|x: String| x@) + commands_from(s@, i as int) == commands_from(s@, 0),
        decreases s.len() - i,
    {
        let m = match_len_exec(TagPattern::CmdTag, &s, i);
        if m > 0 {
            proof {
                reveal_strlit("[CMD:");
            }
            let cmd = crate::text::slice_chars(&s, i + 5, i + m - 1);
            let ghost before = out@;
            out.push(string_of(&cmd));
            assert(out@.map_values(|x: String| x@) =~= before.map_values(|x: String| x@).push(cmd@));
            assert(before.map_values(|x: String| x@) + commands_from(s@, i as int) =~= out@.map_values(
                |x: String| x@,
            ) + commands_from(s@, (i + m) as int));
            i += m;
        } else {
            i += 1;
        }
    }
    assert(out@.map_values(|x: String| x@) + Seq::<Seq<char>>::empty() =~= out@.map_values(|x: String| x@));
    out
}

// ── Laws of the clean-up ─────────────────────────────────────────────────────

/// A status line is one only at the start of a line: a match begins at the
/// start of the text or right after a line break.
pub proof fn law_status_lines_start_lines(s: Seq<char>, i: int)
    requires
        0 <= i < s.len(),
        match_len(TagPattern::StatusLine, s, i) > 0,
    ensures
        i == 0 || s[i - 1] == '\n',
{
}

/// Where no match of `p` starts from `i` on, nothing is replaced.
proof fn lemma_replace_none(p: TagPattern, s: Seq<char>, i: int, rep: Seq<char>)
    requires
        0 <= i <= s.len(),
        forall|k: int| i <= k < s.len() ==> match_len(p, s, k) == 0,
    ensures
        replace_from(p, s, i, rep) == s.skip(i),
    decreases s.len() - i,
{
    if i < s.len() {
        lemma_replace_none(p, s, i + 1, rep);
        assert(s.skip(i) =~= seq![s[i]] + s.skip(i + 1));
    } else {
        assert(s.skip(i) =~= Seq::<char>::empty());
    }
}

/// `w` stands at a line start `k` of `s`, followed by white space.
pub open spec fn keyword_opens_line(s: Seq<char>, k: int, w: Seq<char>) -> bool {
    &&& k == 0 || (0 < k <= s.len() && s[k - 1] == '\n')
    &&& occurs_at(s, w, k)
    &&& k + w.len() < s.len()
    &&& is_ws(s[k + w.len()])
}

/// A reply that holds no command tag, no `CMD]`, no status line at the start
/// of any of its lines, no two spaces and no three line breaks in a row, and
/// no white space at its ends, comes out of the clean-up as it went in; in
/// particular `OK`, `ERROR` and the like in the middle of a line stay.
pub proof fn law_clean_text_unchanged(s: Seq<char>)
    requires
        forall|k: int| 0 <= k < s.len() ==> s[k] != '[',
        !contains(s, "CMD]"@),
        forall|k: int|
            0 <= k < s.len() ==> !keyword_opens_line(s, k, "executing:"@) && !keyword_opens_line(s, k, "OK"@)
                && !keyword_opens_line(s, k, "ERROR"@) && !keyword_opens_line(s, k, "FAILED"@),
        no_pair(s, ' '),
        no_triple(s, '\n'),
        trim(s) == s,
    ensures
        without_any_cmd(s) == s,
{
    reveal_strlit("[LOCAL_CMD");
    reveal_strlit("[CMD:");
    reveal_strlit("CMD]");
    reveal_strlit("executing:");
    reveal_strlit("OK");
    reveal_strlit("ERROR");
    reveal_strlit("FAILED");
    assert(s.skip(0) =~= s);
    assert forall|k: int| 0 <= k < s.len() implies match_len(TagPattern::LocalCmd, s, k) == 0 by {
        if occurs_at(s, "[LOCAL_CMD"@, k) {
            assert(s.subrange(k, k + 10)[0] == s[k]);
        }
    }
    lemma_replace_none(TagPattern::LocalCmd, s, 0, Seq::empty());
    assert forall|k: int| 0 <= k < s.len() implies match_len(TagPattern::CmdTagMaybeEmpty, s, k) == 0 by {
        if occurs_at(s, "[CMD:"@, k) {
            assert(s.subrange(k, k + 5)[0] == s[k]);
        }
    }
    lemma_replace_none(TagPattern::CmdTagMaybeEmpty, s, 0, Seq::empty());
    assert forall|k: int| 0 <= k < s.len() implies match_len(TagPattern::CmdResidue, s, k) == 0 by {
        if occurs_at(s, "CMD]"@, k) {
            assert(contains(s, "CMD]"@));
        }
    }
    lemma_replace_none(TagPattern::CmdResidue, s, 0, Seq::empty());
    assert forall|k: int| 0 <= k < s.len() implies match_len(TagPattern::StatusLine, s, k) == 0 by {
        assert(!keyword_opens_line(s, k, "executing:"@) && !keyword_opens_line(s, k, "OK"@)
            && !keyword_opens_line(s, k, "ERROR"@) && !keyword_opens_line(s, k, "FAILED"@));
    }
    lemma_replace_none(TagPattern::StatusLine, s, 0, Seq::empty());
    assert forall|k: int| 0 <= k < s.len() implies match_len(TagPattern::SpaceRun, s, k) == 0 by {
        if run_len(s, k, ' ') >= 2 {
            assert(s[k] == ' ');
            assert(run_len(s, k + 1, ' ') >= 1);
            assert(s[k + 1] == ' ');
        }
    }
    lemma_replace_none(TagPattern::SpaceRun, s, 0, " "@);
    assert forall|k: int| 0 <= k < s.len() implies match_len(TagPattern::BlankLines, s, k) == 0 by {
        if run_len(s, k, '\n') >= 3 {
            assert(s[k] == '\n');
            assert(run_len(s, k + 1, '\n') >= 2);
            assert(s[k + 1] == '\n');
            assert(run_len(s, k + 2, '\n') >= 1);
            assert(s[k + 2] == '\n');
        }
    }
    lemma_replace_none(TagPattern::BlankLines, s, 0, "\n\n"@);
}

/// Where no match of `p` starts in `[i, j)`, that stretch is copied as it is.
proof fn lemma_replace_copies(p: TagPattern, s: Seq<char>, i: int, j: int, rep: Seq<char>)
    requires
        0 <= i <= j <= s.len(),
        forall|k: int| i <= k < j ==> match_len(p, s, k) == 0,
    ensures
        replace_from(p, s, i, rep) == s.subrange(i, j) + replace_from(p, s, j, rep),
    decreases j - i,
{
    if i < j {
        lemma_replace_copies(p, s, i + 1, j, rep);
        assert(s.subrange(i, j) =~= seq![s[i]] + s.subrange(i + 1, j));
        assert(seq![s[i]] + (s.subrange(i + 1, j) + replace_from(p, s, j, rep)) =~= (seq![s[i]] + s.subrange(
            i + 1,
            j,
        )) + replace_from(p, s, j, rep));
    } else {
        assert(s.subrange(i, j) =~= Seq::<char>::empty());
        assert(Seq::<char>::empty() + replace_from(p, s, j, rep) =~= replace_from(p, s, j, rep));
    }
}

/// No tag starts anywhere in a text without `[`.
proof fn lemma_no_bracket_no_tag(s: Seq<char>, k: int)
    requires
        0 <= k < s.len(),
        s[k] != '[',
    ensures
        match_len(TagPattern::CmdTag, s, k) == 0,
        match_len(TagPattern::CmdTagMaybeEmpty, s, k) == 0,
        match_len(TagPattern::LocalCmd, s, k) == 0,
{
    reveal_strlit("[LOCAL_CMD");
    reveal_strlit("[CMD:");
    if occurs_at(s, "[LOCAL_CMD"@, k) {
        assert(s.subrange(k, k + 10)[0] == s[k]);
    }
    if occurs_at(s, "[CMD:"@, k) {
        assert(s.subrange(k, k + 5)[0] == s[k]);
    }
}

proof fn lemma_first_from_found(s: Seq<char>, i: int, j: int, c: char)
    requires
        0 <= i <= j < s.len(),
        s[j] == c,
        forall|k: int| i <= k < j ==> s[k] != c,
    ensures
        first_from(s, i, c) == j,
    decreases j - i,
{
    if i < j {
        lemma_first_from_found(s, i + 1, j, c);
    }
}

/// A reply whose text `a` (without `[`) ends in one command tag `[CMD:c]`
/// (with `c` neither empty nor holding `]`) reads as `a` once tags are cut
/// out, and asks for the one command `c`.
pub proof fn law_trailing_command_tag(a: Seq<char>, c: Seq<char>)
    requires
        forall|k: int| 0 <= k < a.len() ==> a[k] != '[',
        c.len() > 0,
        forall|k: int| 0 <= k < c.len() ==> c[k] != ']',
    ensures
        without_cmd_tags(a + "[CMD:"@ + c + "]"@) == without_cmd_tags(a),
        commands_from(a + "[CMD:"@ + c + "]"@, 0) == seq![c],
{
    reveal_strlit("[CMD:");
    reveal_strlit("]");
    let s = a + "[CMD:"@ + c + "]"@;
    let n = a.len() as int;
    assert(s.len() == n + 5 + c.len() + 1);
    assert forall|k: int| 0 <= k < n implies match_len(TagPattern::CmdTag, s, k) == 0 by {
        assert(s[k] == a[k]);
        lemma_no_bracket_no_tag(s, k);
    }
    assert forall|k: int| 0 <= k < n implies match_len(TagPattern::CmdTag, a, k) == 0 by {
        lemma_no_bracket_no_tag(a, k);
    }
    assert(s.subrange(n, n + 5) =~= "[CMD:"@);
    assert forall|k: int| n + 5 <= k < s.len() - 1 implies s[k] != ']' by {
        assert(s[k] == c[k - n - 5]);
    }
    lemma_first_from_found(s, n + 5, s.len() - 1, ']');
    assert(match_len(TagPattern::CmdTag, s, n) == s.len() - n);
    lemma_replace_copies(TagPattern::CmdTag, s, 0, n, Seq::empty());
    assert(clamp_next(s, n + match_len(TagPattern::CmdTag, s, n)) == s.len());
    assert(replace_from(TagPattern::CmdTag, s, s.len() as int, Seq::empty()) == Seq::<char>::empty());
    assert(replace_from(TagPattern::CmdTag, s, n, Seq::empty()) =~= Seq::<char>::empty() + Seq::<char>::empty());
    assert(s.subrange(0, n) =~= a);
    assert(a + Seq::<char>::empty() =~= a);
    lemma_replace_none(TagPattern::CmdTag, a, 0, Seq::empty());
    assert(a.skip(0) =~= a);
    // the commands: nothing before the tag, then the tag's body
    assert(s.subrange(n + 5, s.len() - 1) =~= c);
    assert forall|i: int| 0 <= i <= n implies commands_from(s, i) == seq![c] by {
        lemma_commands_from_tail(s, i, n, c);
    }
}

proof fn lemma_commands_from_tail(s: Seq<char>, i: int, n: int, c: Seq<char>)
    requires
        0 <= i <= n < s.len(),
        forall|k: int| 0 <= k < n ==> match_len(TagPattern::CmdTag, s, k) == 0,
        match_len(TagPattern::CmdTag, s, n) == s.len() - n,
        s.subrange(n + 5, s.len() - 1) == c,
    ensures
        commands_from(s, i) == seq![c],
    decreases n - i,
{
    if i < n {
        lemma_commands_from_tail(s, i + 1, n, c);
    } else {
        assert(commands_from(s, s.len() as int) == Seq::<Seq<char>>::empty());
        assert(seq![c] + Seq::<Seq<char>>::empty() =~= seq![c]);
    }
}

/// A reply that is a single status line (`executing:`, `OK`, `ERROR` or
/// `FAILED` and white space, with no line break, `[` or `CMD]`) is cleaned
/// away entirely.
pub proof fn law_lone_status_line_cleared(s: Seq<char>)
    requires
        forall|k: int| 0 <= k < s.len() ==> s[k] != '[' && s[k] != '\n',
        !contains(s, "CMD]"@),
        keyword_opens_line(s, 0, "executing:"@) || keyword_opens_line(s, 0, "OK"@) || keyword_opens_line(
            s,
            0,
            "ERROR"@,
        ) || keyword_opens_line(s, 0, "FAILED"@),
    ensures
        without_any_cmd(s) == Seq::<char>::empty(),
{
    reveal_strlit("CMD]");
    reveal_strlit("executing:");
    reveal_strlit("OK");
    reveal_strlit("ERROR");
    reveal_strlit("FAILED");
    assert(s.skip(0) =~= s);
    assert forall|k: int| 0 <= k < s.len() implies match_len(TagPattern::LocalCmd, s, k) == 0 by {
        lemma_no_bracket_no_tag(s, k);
    }
    lemma_replace_none(TagPattern::LocalCmd, s, 0, Seq::empty());
    assert forall|k: int| 0 <= k < s.len() implies match_len(TagPattern::CmdTagMaybeEmpty, s, k) == 0 by {
        lemma_no_bracket_no_tag(s, k);
    }
    lemma_replace_none(TagPattern::CmdTagMaybeEmpty, s, 0, Seq::empty());
    assert forall|k: int| 0 <= k < s.len() implies match_len(TagPattern::CmdResidue, s, k) == 0 by {
        if occurs_at(s, "CMD]"@, k) {
            assert(contains(s, "CMD]"@));
        }
    }
    lemma_replace_none(TagPattern::CmdResidue, s, 0, Seq::empty());
    let kw = status_keyword_len(s, 0) as int;
    assert(s.subrange(0, 1)[0] == s[0]);
    if occurs_at(s, "executing:"@, 0) {
        assert(s.subrange(0, 10)[0] == s[0]);
    }
    if occurs_at(s, "OK"@, 0) {
        assert(s.subrange(0, 2)[0] == s[0]);
    }
    if occurs_at(s, "ERROR"@, 0) {
        assert(s.subrange(0, 5)[0] == s[0]);
    }
    if occurs_at(s, "FAILED"@, 0) {
        assert(s.subrange(0, 6)[0] == s[0]);
    }
    assert(kw > 0 && kw < s.len() && is_ws(s[kw]));
    lemma_first_from_range(s, kw + 1, '\n');
    assert(match_len(TagPattern::StatusLine, s, 0) == s.len());
    assert(clamp_next(s, 0int + match_len(TagPattern::StatusLine, s, 0)) == s.len());
    assert(replace_from(TagPattern::StatusLine, s, s.len() as int, Seq::empty()) == Seq::<char>::empty());
    let d = replace_all(TagPattern::StatusLine, s, Seq::empty());
    assert(d =~= Seq::<char>::empty());
    let e = replace_all(TagPattern::SpaceRun, d, " "@);
    assert(e =~= Seq::<char>::empty());
    let f = replace_all(TagPattern::BlankLines, e, "\n\n"@);
    assert(f =~= Seq::<char>::empty());
    assert(trim_start(f) == f);
    assert(trim_end(f) == f);
}

/// No two `c` stand next to each other in `o`.
pub open spec fn no_pair(o: Seq<char>, c: char) -> bool {
    forall|k: int| 0 <= k < o.len() - 1 ==> !(#[trigger] o[k] == c && o[k + 1] == c)
}

/// No three `c` stand next to each other in `o`.
pub open spec fn no_triple(o: Seq<char>, c: char) -> bool {
    forall|k: int| 0 <= k < o.len() - 2 ==> !(#[trigger] o[k] == c && o[k + 1] == c && o[k + 2] == c)
}

proof fn lemma_run_len_end(s: Seq<char>, i: int, c: char)
    requires
        0 <= i <= s.len(),
    ensures
        i + run_len(s, i, c) <= s.len(),
        i + run_len(s, i, c) < s.len() ==> s[i + run_len(s, i, c)] != c,
        forall|j: int| i <= j < i + run_len(s, i, c) ==> s[j] == c,
    decreases s.len() - i,
{
    if i < s.len() && s[i] == c {
        lemma_run_len_end(s, i + 1, c);
    }
}

/// Collapsing runs of spaces leaves no two spaces side by side, and keeps
/// whether the text starts with a space.
proof fn lemma_spaces_collapsed(s: Seq<char>, i: int)
    requires
        0 <= i <= s.len(),
    ensures
        no_pair(replace_from(TagPattern::SpaceRun, s, i, " "@), ' '),
        replace_from(TagPattern::SpaceRun, s, i, " "@).len() == 0 <==> i == s.len(),
        i < s.len() ==> (replace_from(TagPattern::SpaceRun, s, i, " "@)[0] == ' ' <==> s[i] == ' '),
    decreases s.len() - i,
{
    reveal_strlit(" ");
    let o = replace_from(TagPattern::SpaceRun, s, i, " "@);
    if i < s.len() {
        lemma_run_len_end(s, i, ' ');
        let m = match_len(TagPattern::SpaceRun, s, i);
        if m > 0 {
            let j = i + run_len(s, i, ' ');
            lemma_spaces_collapsed(s, j);
            let rest = replace_from(TagPattern::SpaceRun, s, j, " "@);
            assert(o == " "@ + rest);
            assert forall|k: int| 0 <= k < o.len() - 1 implies !(#[trigger] o[k] == ' ' && o[k + 1] == ' ') by {
                if k > 0 {
                    assert(o[k] == rest[k - 1] && o[k + 1] == rest[k]);
                } else {
                    assert(o[1] == rest[0]);
                }
            }
        } else {
            lemma_spaces_collapsed(s, i + 1);
            let rest = replace_from(TagPattern::SpaceRun, s, i + 1, " "@);
            assert(o == seq![s[i]] + rest);
            if s[i] == ' ' {
                lemma_run_len_end(s, i + 1, ' ');
            }
            assert forall|k: int| 0 <= k < o.len() - 1 implies !(#[trigger] o[k] == ' ' && o[k + 1] == ' ') by {
                if k > 0 {
                    assert(o[k] == rest[k - 1] && o[k + 1] == rest[k]);
                } else {
                    assert(o[1] == rest[0]);
                }
            }
        }
    }
}

/// Collapsing runs of line breaks keeps the first character and adds no
/// pair of spaces.
proof fn lemma_blank_lines_keep_spaces(s: Seq<char>, i: int)
    requires
        0 <= i <= s.len(),
        no_pair(s, ' '),
    ensures
        no_pair(replace_from(TagPattern::BlankLines, s, i, "\n\n"@), ' '),
        replace_from(TagPattern::BlankLines, s, i, "\n\n"@).len() == 0 <==> i == s.len(),
        i < s.len() ==> replace_from(TagPattern::BlankLines, s, i, "\n\n"@)[0] == s[i],
    decreases s.len() - i,
{
    reveal_strlit("\n\n");
    let o = replace_from(TagPattern::BlankLines, s, i, "\n\n"@);
    if i < s.len() {
        lemma_run_len_end(s, i, '\n');
        let m = match_len(TagPattern::BlankLines, s, i);
        if m > 0 {
            let j = i + run_len(s, i, '\n');
            lemma_blank_lines_keep_spaces(s, j);
            let rest = replace_from(TagPattern::BlankLines, s, j, "\n\n"@);
            assert(o == "\n\n"@ + rest);
            assert forall|k: int| 0 <= k < o.len() - 1 implies !(#[trigger] o[k] == ' ' && o[k + 1] == ' ') by {
                if k > 1 {
                    assert(o[k] == rest[k - 2] && o[k + 1] == rest[k - 1]);
                }
            }
        } else {
            lemma_blank_lines_keep_spaces(s, i + 1);
            let rest = replace_from(TagPattern::BlankLines, s, i + 1, "\n\n"@);
            assert(o == seq![s[i]] + rest);
            assert forall|k: int| 0 <= k < o.len() - 1 implies !(#[trigger] o[k] == ' ' && o[k + 1] == ' ') by {
                if k > 0 {
                    assert(o[k] == rest[k - 1] && o[k + 1] == rest[k]);
                } else {
                    assert(o[1] == rest[0]);
                    assert(!(s[i] == ' ' && s[i + 1] == ' '));
                }
            }
        }
    }
}

/// Collapsing runs of line breaks leaves no three of them side by side.
proof fn lemma_blank_lines_collapsed(s: Seq<char>, i: int)
    requires
        0 <= i <= s.len(),
    ensures
        no_triple(replace_from(TagPattern::BlankLines, s, i, "\n\n"@), '\n'),
        replace_from(TagPattern::BlankLines, s, i, "\n\n"@).len() == 0 <==> i == s.len(),
        i < s.len() ==> replace_from(TagPattern::BlankLines, s, i, "\n\n"@)[0] == s[i],
        ({
            let o = replace_from(TagPattern::BlankLines, s, i, "\n\n"@);
            o.len() > 1 && o[0] == '\n' && o[1] == '\n' ==> run_len(s, i, '\n') >= 2
        }),
    decreases s.len() - i,
{
    reveal_strlit("\n\n");
    let o = replace_from(TagPattern::BlankLines, s, i, "\n\n"@);
    if i < s.len() {
        lemma_run_len_end(s, i, '\n');
        let m = match_len(TagPattern::BlankLines, s, i);
        if m > 0 {
            let j = i + run_len(s, i, '\n');
            lemma_blank_lines_collapsed(s, j);
            let rest = replace_from(TagPattern::BlankLines, s, j, "\n\n"@);
            assert(o == "\n\n"@ + rest);
            assert forall|k: int| 0 <= k < o.len() - 2 implies !(#[trigger] o[k] == '\n' && o[k + 1] == '\n' && o[k + 2] == '\n') by {
                if k > 1 {
                    assert(o[k] == rest[k - 2] && o[k + 1] == rest[k - 1] && o[k + 2] == rest[k]);
                } else if k == 1 {
                    assert(o[2] == rest[0]);
                } else {
                    assert(o[2] == rest[0]);
                }
            }
        } else {
            lemma_blank_lines_collapsed(s, i + 1);
            let rest = replace_from(TagPattern::BlankLines, s, i + 1, "\n\n"@);
            assert(o == seq![s[i]] + rest);
            if i + 1 < s.len() {
                lemma_run_len_end(s, i + 1, '\n');
            }
            assert forall|k: int| 0 <= k < o.len() - 2 implies !(#[trigger] o[k] == '\n' && o[k + 1] == '\n' && o[k + 2] == '\n') by {
                if k > 0 {
                    assert(o[k] == rest[k - 1] && o[k + 1] == rest[k] && o[k + 2] == rest[k + 1]);
                } else {
                    assert(o[1] == rest[0] && o[2] == rest[1]);
                }
            }
        }
    }
}

/// Trimming keeps a stretch of the text, so whatever never stood side by
/// side still does not.
proof fn lemma_trim_keeps_runs(f: Seq<char>)
    ensures
        no_pair(f, ' ') ==> no_pair(trim(f), ' '),
        no_triple(f, '\n') ==> no_triple(trim(f), '\n'),
{
    let a = trim_start(f);
    lemma_trim_start_shape(f);
    lemma_trim_end_shape(a);
    let off = f.len() - a.len();
    let t = trim(f);
    assert forall|k: int| 0 <= k < t.len() implies #[trigger] t[k] == f[k + off] by {
        assert(t[k] == a[k]);
        assert(a[k] == f[k + off]);
    }
    if no_pair(f, ' ') {
        assert forall|k: int| 0 <= k < t.len() - 1 implies !(#[trigger] t[k] == ' ' && t[k + 1] == ' ') by {
            assert(t[k] == f[k + off] && t[k + 1] == f[k + 1 + off]);
        }
    }
    if no_triple(f, '\n') {
        assert forall|k: int| 0 <= k < t.len() - 2 implies !(#[trigger] t[k] == '\n' && t[k + 1] == '\n' && t[k + 2] == '\n') by {
            assert(t[k] == f[k + off] && t[k + 1] == f[k + 1 + off] && t[k + 2] == f[k + 2 + off]);
        }
    }
}

/// Once `[CMD:...]` tags are cut out, no two spaces stand side by side.
pub proof fn law_cmd_tags_cut_leave_single_spaces(s: Seq<char>)
    ensures
        no_pair(without_cmd_tags(s), ' '),
{
    lemma_spaces_collapsed(trim(replace_all(TagPattern::CmdTag, s, Seq::empty())), 0);
}

/// The fully cleaned reply is trimmed, has no two spaces side by side and
/// no more than two line breaks in a row.
pub proof fn law_cleaned_reply_is_tidy(s: Seq<char>)
    ensures
        trim(without_any_cmd(s)) == without_any_cmd(s),
        no_pair(without_any_cmd(s), ' '),
        no_triple(without_any_cmd(s), '\n'),
{
    let a = replace_all(TagPattern::LocalCmd, s, Seq::empty());
    let b = replace_all(TagPattern::CmdTagMaybeEmpty, a, Seq::empty());
    let c = replace_all(TagPattern::CmdResidue, b, Seq::empty());
    let d = replace_all(TagPattern::StatusLine, c, Seq::empty());
    let e = replace_all(TagPattern::SpaceRun, d, " "@);
    let f = replace_all(TagPattern::BlankLines, e, "\n\n"@);
    lemma_spaces_collapsed(d, 0);
    lemma_blank_lines_keep_spaces(e, 0);
    lemma_blank_lines_collapsed(e, 0);
    lemma_trim_keeps_runs(f);
    lemma_trim_idempotent(f);
}

} // verus!
