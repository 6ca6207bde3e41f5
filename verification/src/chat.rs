//! Text handling of a chat turn: sentence splitting for streamed speech,
//! language and voice choice, emotion tagging, and command-tag filtering.
use vstd::prelude::*;

use crate::text::{
    append_chars, chars_eq, chars_of, contains, contains_exec, count_where, is_ascii_alpha,
    is_ascii_digit, is_ws, is_ws_char, occurs_at, occurs_at_exec, slice_chars, string_of, trim,
    trim_range, lemma_trim_idempotent, lemma_trim_start_shape, lemma_trim_end_shape, before_dash, before_dash_exec, is_lit, trim_chars, concat3, trim_start,
    trim_end,
};

verus! {

// ── Sentence splitting ────────────────────────────────────────────────────────

/// Characters that always end a sentence.
pub open spec fn is_terminator(c: char) -> bool {
    c == '。' || c == '！' || c == '？' || c == '!' || c == '?' || c == '\n'
}

/// The opening of a command tag, `[CMD:`.
pub open spec fn cmd_open() -> Seq<char> {
    seq!['[', 'C', 'M', 'D', ':']
}

/// A `.` at `i` between two ASCII digits (as in `2.54`) is a decimal point.
pub open spec fn is_decimal_point(s: Seq<char>, i: int) -> bool {
    &&& s[i] == '.'
    &&& i > 0 && is_ascii_digit(s[i - 1])
    &&& i + 1 < s.len() && is_ascii_digit(s[i + 1])
}

/// The character at `i` may end a sentence.
pub open spec fn ends_sentence(s: Seq<char>, i: int) -> bool {
    is_terminator(s[i]) || (s[i] == '.' && !is_decimal_point(s, i))
}

/// Scans `s` from `i`, where the pending sentence starts at `last` and
/// `in_tag` says whether a command tag is open. Gives the sentences found from
/// `i` on and the start of the text left over.
///
/// Inside `[CMD:...]` nothing ends a sentence; a tag closes at its `]`. A
/// sentence needs at least two characters; it is given back trimmed, and
/// dropped when nothing but white space.
pub open spec fn scan_sentences(s: Seq<char>, i: int, last: int, in_tag: bool) -> (Seq<Seq<char>>, int)
    decreases s.len() - i,
{
    if i < 0 || i >= s.len() {
        (Seq::empty(), last)
    } else if in_tag {
        scan_sentences(s, i + 1, last, s[i] != ']')
    } else if occurs_at(s, cmd_open(), i) {
        scan_sentences(s, i + 5, last, true)
    } else if ends_sentence(s, i) && i > last {
        let t = trim(s.subrange(last, i + 1));
        let rest = scan_sentences(s, i + 1, i + 1, false);
        (if t.len() > 0 { seq![t] + rest.0 } else { rest.0 }, rest.1)
    } else {
        scan_sentences(s, i + 1, last, false)
    }
}

/// The complete sentences of `s` and where the unfinished rest begins.
pub open spec fn sentences_of(s: Seq<char>) -> (Seq<Seq<char>>, int) {
    scan_sentences(s, 0, 0, false)
}

pub open spec fn string_views(v: Seq<String>) -> Seq<Seq<char>> {
    v.map_values(|x: String| x@)
}

pub proof fn lemma_scan_bounds(s: Seq<char>, i: int, last: int, in_tag: bool)
    requires
        0 <= last <= i <= s.len(),
    ensures
        last <= scan_sentences(s, i, last, in_tag).1 <= s.len(),
        forall|k: int| 0 <= k < scan_sentences(s, i, last, in_tag).0.len() ==> {
            let x = #[trigger] scan_sentences(s, i, last, in_tag).0[k];
            x.len() > 0 && trim(x) == x
        },
    decreases s.len() - i,
{
    if i >= s.len() {
    } else if in_tag {
        lemma_scan_bounds(s, i + 1, last, s[i] != ']');
    } else if occurs_at(s, cmd_open(), i) {
        lemma_scan_bounds(s, i + 5, last, true);
    } else if ends_sentence(s, i) && i > last {
        let t = trim(s.subrange(last, i + 1));
        lemma_scan_bounds(s, i + 1, i + 1, false);
        lemma_trim_idempotent(s.subrange(last, i + 1));
        let rest = scan_sentences(s, i + 1, i + 1, false);
        if t.len() > 0 {
            assert forall|k: int| 0 <= k < (seq![t] + rest.0).len() implies {
                let x = #[trigger] (seq![t] + rest.0)[k];
                x.len() > 0 && trim(x) == x
            } by {
                if k > 0 {
                    assert((seq![t] + rest.0)[k] == rest.0[k - 1]);
                }
            }
        }
    } else {
        lemma_scan_bounds(s, i + 1, last, false);
    }
}

/// Splits `buffer` into the complete sentences it holds, for speaking them
/// while the reply is still streaming, and the unfinished text after them.
///
/// Sentences end at `。！？!?` and at a newline, and at a `.` that is not a
/// decimal point; nothing inside a `[CMD:...]` tag ends one.
pub fn split_sentences(buffer: &str) -> (r: (Vec<String>, String))
    ensures
        string_views(r.0@) == sentences_of(buffer@).0,
        r.1@ == buffer@.skip(sentences_of(buffer@).1),
        // every sentence given back is trimmed and not empty
        forall|k: int| 0 <= k < r.0@.len() ==> {
            let x = #[trigger] r.0@[k]@;
            x.len() > 0 && trim(x) == x
        },
{
    let chars = chars_of(buffer);
    let ghost s = chars@;
    let mut sentences: Vec<String> = Vec::new();
    let ghost mut acc: Seq<Seq<char>> = Seq::empty();
    let mut last: usize = 0;
    let mut in_tag = false;
    let mut i: usize = 0;
    let open = chars_of("[CMD:");
    proof {
        reveal_strlit("[CMD:");
        assert(open@ =~= cmd_open());
    }
    while i < chars.len()
        invariant
            s == chars@,
            open@ == cmd_open(),
            0 <= last <= i <= chars.len(),
            string_views(sentences@) == acc,
            sentences_of(s).0 == acc + scan_sentences(s, i as int, last as int, in_tag).0,
            sentences_of(s).1 == scan_sentences(s, i as int, last as int, in_tag).1,
        decreases chars.len() - i,
    {
        let ch = chars[i];
        if in_tag {
            if ch == ']' {
                in_tag = false;
            }
            i += 1;
            continue;
        }
        if occurs_at_exec(&chars, &open, i) {
            in_tag = true;
            i += 5;
            continue;
        }
        let is_end = ch == '。' || ch == '！' || ch == '？' || ch == '!' || ch == '?' || ch == '\n';
        let is_period = ch == '.';
        let is_decimal = if is_period {
            let prev_digit = i > 0 && '0' <= chars[i - 1] && chars[i - 1] <= '9';
            let next_digit = i + 1 < chars.len() && '0' <= chars[i + 1] && chars[i + 1] <= '9';
            prev_digit && next_digit
        } else {
            false
        };
        if (is_end || (is_period && !is_decimal)) && i > last {
            let end = i + 1;
            let trimmed = trim_range(&chars, last, end);
            if trimmed.len() > 0 {
                let t = string_of(&trimmed);
                proof {
                    let ghost old_s = sentences@;
                    assert(string_views(old_s.push(t)) =~= string_views(old_s).push(t@));
                    assert(acc.push(trimmed@) + scan_sentences(s, end as int, end as int, false).0
                        =~= acc + (seq![trimmed@] + scan_sentences(s, end as int, end as int, false).0));
                    acc = acc.push(trimmed@);
                }
                sentences.push(t);
            }
            last = end;
        }
        i += 1;
    }
    proof {
        assert(acc + Seq::<Seq<char>>::empty() =~= acc);
        lemma_scan_bounds(s, 0, 0, false);
    }
    let rest = slice_chars(&chars, last, chars.len());
    assert(rest@ =~= s.skip(last as int));
    let remaining = string_of(&rest);
    assert forall|k: int| 0 <= k < sentences@.len() implies {
        let x = #[trigger] sentences@[k]@;
        x.len() > 0 && trim(x) == x
    } by {
        assert(string_views(sentences@)[k] == sentences@[k]@);
    }
    (sentences, remaining)
}


/// Scanning the text from `o` on, where no sentence is pending before `o`, is
/// scanning the text that starts at `o`.
proof fn lemma_scan_shift(s: Seq<char>, o: int, i: int, last: int, in_tag: bool)
    requires
        0 <= o <= last <= i <= s.len(),
        i == o ==> last == o,
    ensures
        scan_sentences(s.skip(o), i - o, last - o, in_tag)
            == (scan_sentences(s, i, last, in_tag).0, scan_sentences(s, i, last, in_tag).1 - o),
    decreases s.len() - i,
{
    let t = s.skip(o);
    if i >= s.len() {
    } else {
        assert(t[i - o] == s[i]);
        if in_tag {
            lemma_scan_shift(s, o, i + 1, last, s[i] != ']');
        } else {
            assert(occurs_at(t, cmd_open(), i - o) == occurs_at(s, cmd_open(), i)) by {
                if i + 5 <= s.len() {
                    assert(t.subrange(i - o, i - o + 5) =~= s.subrange(i, i + 5));
                }
            }
            if occurs_at(s, cmd_open(), i) {
                lemma_scan_shift(s, o, i + 5, last, true);
            } else {
                if i > o {
                    assert(t[i - o - 1] == s[i - 1]);
                    if i + 1 < s.len() {
                        assert(t[i - o + 1] == s[i + 1]);
                    }
                    assert(ends_sentence(t, i - o) == ends_sentence(s, i));
                }
                if ends_sentence(s, i) && i > last {
                    assert(t.subrange(last - o, i - o + 1) =~= s.subrange(last, i + 1));
                    lemma_scan_shift(s, o, i + 1, i + 1, false);
                } else {
                    lemma_scan_shift(s, o, i + 1, last, false);
                }
            }
        }
    }
}

/// A scan that finds no split ends where it began and gives no sentence.
proof fn lemma_scan_no_split(s: Seq<char>, i: int, last: int, in_tag: bool)
    requires
        0 <= last <= i <= s.len(),
        scan_sentences(s, i, last, in_tag).1 == last,
    ensures
        scan_sentences(s, i, last, in_tag).0.len() == 0,
    decreases s.len() - i,
{
    if i >= s.len() {
    } else if in_tag {
        lemma_scan_no_split(s, i + 1, last, s[i] != ']');
    } else if occurs_at(s, cmd_open(), i) {
        lemma_scan_no_split(s, i + 5, last, true);
    } else if ends_sentence(s, i) && i > last {
        lemma_scan_bounds(s, i + 1, i + 1, false);
    } else {
        lemma_scan_no_split(s, i + 1, last, false);
    }
}

/// After a scan that split somewhere, scanning afresh from where it left the
/// rest finds nothing more.
proof fn lemma_scan_rest_settled(s: Seq<char>, i: int, last: int, in_tag: bool)
    requires
        0 <= last <= i <= s.len(),
        scan_sentences(s, i, last, in_tag).1 != last,
    ensures
        ({
            let r = scan_sentences(s, i, last, in_tag).1;
            scan_sentences(s, r, r, false).0.len() == 0 && scan_sentences(s, r, r, false).1 == r
        }),
    decreases s.len() - i,
{
    if i >= s.len() {
    } else if in_tag {
        lemma_scan_rest_settled(s, i + 1, last, s[i] != ']');
    } else if occurs_at(s, cmd_open(), i) {
        lemma_scan_rest_settled(s, i + 5, last, true);
    } else if ends_sentence(s, i) && i > last {
        let rest = scan_sentences(s, i + 1, i + 1, false);
        if rest.1 == i + 1 {
            lemma_scan_no_split(s, i + 1, i + 1, false);
        } else {
            lemma_scan_rest_settled(s, i + 1, i + 1, false);
        }
    } else {
        lemma_scan_rest_settled(s, i + 1, last, false);
    }
}

/// `s` with its white space taken out.
pub open spec fn without_ws(s: Seq<char>) -> Seq<char>
    decreases s.len(),
{
    if s.len() == 0 {
        Seq::empty()
    } else {
        without_ws(s.drop_last()) + if is_ws(s.last()) {
            Seq::<char>::empty()
        } else {
            seq![s.last()]
        }
    }
}

/// The pieces of `ss`, one after another.
pub open spec fn join_all(ss: Seq<Seq<char>>) -> Seq<char>
    decreases ss.len(),
{
    if ss.len() == 0 {
        Seq::empty()
    } else {
        ss[0] + join_all(ss.drop_first())
    }
}

pub proof fn lemma_without_ws_add(a: Seq<char>, b: Seq<char>)
    ensures
        without_ws(a + b) == without_ws(a) + without_ws(b),
    decreases b.len(),
{
    if b.len() == 0 {
        assert(a + b =~= a);
        assert(without_ws(a) + Seq::<char>::empty() =~= without_ws(a));
    } else {
        assert((a + b).drop_last() =~= a + b.drop_last());
        assert((a + b).last() == b.last());
        lemma_without_ws_add(a, b.drop_last());
        let tail = if is_ws(b.last()) {
            Seq::<char>::empty()
        } else {
            seq![b.last()]
        };
        assert(without_ws(a + b) == without_ws(a + b.drop_last()) + tail);
        assert(without_ws(b) == without_ws(b.drop_last()) + tail);
        assert((without_ws(a) + without_ws(b.drop_last())) + tail =~= without_ws(a) + (without_ws(b.drop_last()) + tail));
    }
}

pub proof fn lemma_trim_end_keeps(s: Seq<char>)
    ensures
        without_ws(trim_end(s)) == without_ws(s),
    decreases s.len(),
{
    if s.len() > 0 && is_ws(s.last()) {
        lemma_trim_end_keeps(s.drop_last());
        assert(without_ws(s) =~= without_ws(s.drop_last()));
    }
}

pub proof fn lemma_trim_start_keeps(s: Seq<char>)
    ensures
        without_ws(trim_start(s)) == without_ws(s),
    decreases s.len(),
{
    if s.len() > 0 && is_ws(s[0]) {
        lemma_trim_start_keeps(s.drop_first());
        let one = seq![s[0]];
        assert(s =~= one + s.drop_first());
        lemma_without_ws_add(one, s.drop_first());
        assert(one.drop_last() =~= Seq::<char>::empty());
        assert(one.last() == s[0]);
        assert(without_ws(one.drop_last()) == Seq::<char>::empty());
        assert(without_ws(one) =~= Seq::<char>::empty() + Seq::<char>::empty());
        assert(without_ws(one) =~= Seq::<char>::empty());
        assert(Seq::<char>::empty() + without_ws(s.drop_first()) =~= without_ws(s.drop_first()));
    }
}

proof fn lemma_scan_keeps_text(s: Seq<char>, i: int, last: int, in_tag: bool)
    requires
        0 <= last <= i <= s.len(),
    ensures
        without_ws(join_all(scan_sentences(s, i, last, in_tag).0)) == without_ws(
            s.subrange(last, scan_sentences(s, i, last, in_tag).1),
        ),
    decreases s.len() - i,
{
    lemma_scan_bounds(s, i, last, in_tag);
    if i >= s.len() {
        assert(s.subrange(last, last) =~= Seq::<char>::empty());
    } else if in_tag {
        lemma_scan_keeps_text(s, i + 1, last, s[i] != ']');
    } else if occurs_at(s, cmd_open(), i) {
        lemma_scan_keeps_text(s, i + 5, last, true);
    } else if ends_sentence(s, i) && i > last {
        let piece = s.subrange(last, i + 1);
        let t = trim(piece);
        let rest = scan_sentences(s, i + 1, i + 1, false);
        lemma_scan_keeps_text(s, i + 1, i + 1, false);
        lemma_scan_bounds(s, i + 1, i + 1, false);
        lemma_trim_start_keeps(piece);
        lemma_trim_end_keeps(trim_start(piece));
        let rr = rest.1;
        assert(s.subrange(last, rr) =~= piece + s.subrange(i + 1, rr));
        lemma_without_ws_add(piece, s.subrange(i + 1, rr));
        if t.len() > 0 {
            let all = seq![t] + rest.0;
            assert(all[0] == t);
            assert(all.drop_first() =~= rest.0);
            lemma_without_ws_add(t, join_all(rest.0));
        } else {
            assert(t =~= Seq::<char>::empty());
            assert(Seq::<char>::empty() + without_ws(s.subrange(i + 1, rr)) =~= without_ws(s.subrange(i + 1, rr)));
        }
    } else {
        lemma_scan_keeps_text(s, i + 1, last, false);
    }
}

/// Nothing but white space is lost between a text and its sentences: the
/// sentences `split_sentences` gives back, one after another, are the text
/// before the rest once white space is taken out of both.
pub proof fn law_sentences_keep_the_text(s: Seq<char>)
    ensures
        without_ws(join_all(sentences_of(s).0)) == without_ws(s.take(sentences_of(s).1)),
{
    lemma_scan_keeps_text(s, 0, 0, false);
    lemma_scan_bounds(s, 0, 0, false);
    assert(s.subrange(0, sentences_of(s).1) =~= s.take(sentences_of(s).1));
}

/// What `split_sentences` leaves over holds no complete sentence: splitting
/// it again gives no sentence and keeps all of it, so a streamed reply loses
/// nothing by carrying the rest over to the next chunk.
pub proof fn law_leftover_holds_no_sentence(s: Seq<char>)
    ensures
        ({
            let rest = s.skip(sentences_of(s).1);
            sentences_of(rest).0.len() == 0 && rest.skip(sentences_of(rest).1) == rest
        }),
{
    lemma_scan_bounds(s, 0, 0, false);
    let r = sentences_of(s).1;
    if r == 0 {
        lemma_scan_no_split(s, 0, 0, false);
    } else {
        lemma_scan_rest_settled(s, 0, 0, false);
    }
    lemma_scan_shift(s, r, r, r, false);
    assert(s.skip(r).skip(0) =~= s.skip(r));
}

/// Scanning outside command tags: when no terminator stands after the
/// pending start `last` and before `i`, none stands strictly inside a
/// sentence found, nor after the start of the rest.
proof fn lemma_scan_no_inner_terminator(s: Seq<char>, i: int, last: int)
    requires
        0 <= last <= i <= s.len(),
        forall|k: int| 0 <= k < s.len() ==> !occurs_at(s, cmd_open(), k),
        forall|k: int| last < k < i ==> !is_terminator(#[trigger] s[k]),
    ensures
        forall|n: int, j: int|
            0 <= n < scan_sentences(s, i, last, false).0.len() && 0 < j < scan_sentences(s, i, last, false).0[n].len()
                - 1 ==> !is_terminator(#[trigger] scan_sentences(s, i, last, false).0[n][j]),
        forall|k: int| scan_sentences(s, i, last, false).1 < k < s.len() ==> !is_terminator(#[trigger] s[k]),
    decreases s.len() - i,
{
    lemma_scan_bounds(s, i, last, false);
    if i >= s.len() {
    } else if ends_sentence(s, i) && i > last {
        assert(!occurs_at(s, cmd_open(), i));
        let piece = s.subrange(last, i + 1);
        let a = trim_start(piece);
        let t = trim(piece);
        lemma_trim_start_shape(piece);
        lemma_trim_end_shape(a);
        lemma_scan_no_inner_terminator(s, i + 1, i + 1);
        let rest = scan_sentences(s, i + 1, i + 1, false);
        let off = piece.len() - a.len();
        assert forall|j: int| 0 < j < t.len() - 1 implies !is_terminator(#[trigger] t[j]) by {
            assert(t[j] == a[j]);
            assert(a[j] == piece[j + off]);
            assert(piece[j + off] == s[last + j + off]);
        }
        if t.len() > 0 {
            let all = seq![t] + rest.0;
            assert(scan_sentences(s, i, last, false).0 == all);
            assert forall|n: int, j: int| 0 <= n < all.len() && 0 < j < all[n].len() - 1 implies !is_terminator(
                #[trigger] all[n][j],
            ) by {
                if n > 0 {
                    assert(all[n] == rest.0[n - 1]);
                } else {
                    assert(all[0] == t);
                }
            }
        } else {
            assert(scan_sentences(s, i, last, false).0 == rest.0);
        }
    } else {
        assert(!occurs_at(s, cmd_open(), i));
        lemma_scan_no_inner_terminator(s, i + 1, last);
    }
}

/// Outside command tags every one of `。！？!?` and the line break ends the
/// sentence it stands in: in a text without `[CMD:`, none of them stands
/// strictly inside a sentence that `split_sentences` gives back, nor in the
/// rest it leaves over after that rest's first character.
pub proof fn law_terminators_end_sentences(s: Seq<char>)
    requires
        forall|k: int| 0 <= k < s.len() ==> !occurs_at(s, seq!['[', 'C', 'M', 'D', ':'], k),
    ensures
        forall|n: int, j: int|
            0 <= n < sentences_of(s).0.len() && 0 < j < sentences_of(s).0[n].len() - 1 ==> {
                let c = #[trigger] sentences_of(s).0[n][j];
                c != '。' && c != '！' && c != '？' && c != '!' && c != '?' && c != '\n'
            },
        forall|k: int| sentences_of(s).1 < k < s.len() ==> {
            let c = #[trigger] s[k];
            c != '。' && c != '！' && c != '？' && c != '!' && c != '?' && c != '\n'
        },
{
    lemma_scan_bounds(s, 0, 0, false);
    lemma_scan_no_inner_terminator(s, 0, 0);
}

/// A scan outside tags over characters none of which may end a sentence
/// finds no sentence and leaves the pending start where it was.
proof fn lemma_scan_finds_nothing(s: Seq<char>, i: int, last: int)
    requires
        0 <= last <= i <= s.len(),
        forall|k: int| 0 <= k < s.len() ==> !occurs_at(s, cmd_open(), k),
        forall|k: int| i <= k < s.len() ==> !ends_sentence(s, k),
    ensures
        scan_sentences(s, i, last, false) == (Seq::<Seq<char>>::empty(), last),
    decreases s.len() - i,
{
    if i < s.len() {
        assert(!occurs_at(s, cmd_open(), i));
        lemma_scan_finds_nothing(s, i + 1, last);
    }
}

/// A text with none of `。！？!?`, no line break, and no `.` but between two
/// digits (as in `3.14`) holds no complete sentence: `split_sentences` gives
/// none back and keeps all of it for later.
pub proof fn law_decimal_points_do_not_split(s: Seq<char>)
    requires
        forall|k: int| 0 <= k < s.len() ==> !occurs_at(s, seq!['[', 'C', 'M', 'D', ':'], k),
        forall|k: int|
            0 <= k < s.len() ==> {
                let c = #[trigger] s[k];
                c != '。' && c != '！' && c != '？' && c != '!' && c != '?' && c != '\n'
            },
        forall|k: int|
            0 <= k < s.len() && #[trigger] s[k] == '.' ==> 0 < k < s.len() - 1 && '0' <= s[k - 1] && s[k - 1] <= '9'
                && '0' <= s[k + 1] && s[k + 1] <= '9',
    ensures
        sentences_of(s).0.len() == 0,
        sentences_of(s).1 == 0,
{
    assert forall|k: int| 0 <= k < s.len() implies !ends_sentence(s, k) by {
        assert(!is_terminator(s[k]));
        if s[k] == '.' {
            assert(is_decimal_point(s, k));
        }
    }
    lemma_scan_finds_nothing(s, 0, 0);
}

proof fn lemma_scan_in_open_tag(s: Seq<char>, i: int, last: int)
    requires
        0 <= last <= i <= s.len(),
        forall|k: int| i <= k < s.len() ==> s[k] != ']',
    ensures
        scan_sentences(s, i, last, true) == (Seq::<Seq<char>>::empty(), last),
    decreases s.len() - i,
{
    if i < s.len() {
        lemma_scan_in_open_tag(s, i + 1, last);
    }
}

/// Nothing inside a command tag ends a sentence: a text that opens with
/// `[CMD:` and has no `]` to close it gives no sentence, whatever it holds,
/// and is kept whole until the tag closes.
pub proof fn law_open_command_tag_holds_back(s: Seq<char>)
    requires
        s.len() >= 5 && s.take(5) == seq!['[', 'C', 'M', 'D', ':'],
        forall|k: int| 0 <= k < s.len() ==> s[k] != ']',
    ensures
        sentences_of(s).0.len() == 0,
        sentences_of(s).1 == 0,
{
    assert(s.subrange(0, 5) =~= s.take(5));
    assert(occurs_at(s, cmd_open(), 0));
    lemma_scan_in_open_tag(s, 5, 0);
}

} // verus!

verus! {

// ── Language detection ────────────────────────────────────────────────────────

pub open spec fn is_kana(c: char) -> bool {
    ('\u{3040}' <= c && c <= '\u{309f}') || ('\u{30a0}' <= c && c <= '\u{30ff}')
}

pub open spec fn is_hangul(c: char) -> bool {
    '\u{ac00}' <= c && c <= '\u{d7af}'
}

pub open spec fn is_han(c: char) -> bool {
    '\u{4e00}' <= c && c <= '\u{9fff}'
}

pub open spec fn kana_count(s: Seq<char>) -> nat {
    count_where(s, |c: char| is_kana(c))
}

pub open spec fn hangul_count(s: Seq<char>) -> nat {
    count_where(s, |c: char| is_hangul(c))
}

pub open spec fn han_count(s: Seq<char>) -> nat {
    count_where(s, |c: char| is_han(c))
}

pub open spec fn ascii_letter_count(s: Seq<char>) -> nat {
    count_where(s, |c: char| is_ascii_alpha(c))
}

/// Length of the run of non-white-space characters that `s` starts with.
pub open spec fn first_word_len(s: Seq<char>) -> nat
    decreases s.len(),
{
    if s.len() == 0 || is_ws(s[0]) {
        0
    } else {
        1 + first_word_len(s.drop_first())
    }
}

pub proof fn lemma_first_word_len(s: Seq<char>, k: int)
    requires
        0 <= k <= s.len(),
        forall|j: int| 0 <= j < k ==> !is_ws(#[trigger] s[j]),
        k == s.len() || is_ws(s[k]),
    ensures
        first_word_len(s) == k,
    decreases k,
{
    if k > 0 {
        lemma_first_word_len(s.drop_first(), k - 1);
    }
}

pub proof fn lemma_first_word_len_bound(s: Seq<char>)
    ensures
        first_word_len(s) <= s.len(),
    decreases s.len(),
{
    if s.len() > 0 && !is_ws(s[0]) {
        lemma_first_word_len_bound(s.drop_first());
    }
}

/// Number of white-space separated words of `s` that hold at least two ASCII
/// letters: the English words, as the language guess counts them.
pub open spec fn english_words(s: Seq<char>) -> nat
    decreases s.len(),
{
    if s.len() == 0 {
        0
    } else if is_ws(s[0]) {
        english_words(s.drop_first())
    } else {
        let n = first_word_len(s);
        proof {
            lemma_first_word_len_bound(s);
        }
        (if ascii_letter_count(s.take(n as int)) >= 2 { 1nat } else { 0nat }) + english_words(
            s.skip(n as int),
        )
    }
}

/// The language a reply is written in, by script: any kana is Japanese, else
/// any Hangul is Korean, else Chinese when Han characters outnumber English
/// words, else English when there is an English word, else Chinese.
pub open spec fn detected_language(s: Seq<char>) -> Seq<char> {
    if kana_count(s) > 0 {
        "ja"@
    } else if hangul_count(s) > 0 {
        "ko"@
    } else if han_count(s) > english_words(s) {
        "zh"@
    } else if english_words(s) > 0 {
        "en"@
    } else {
        "zh"@
    }
}

proof fn lemma_count_step(s: Seq<char>, i: int, f: spec_fn(char) -> bool)
    requires
        0 <= i < s.len(),
    ensures
        count_where(s.take(i + 1), f) == count_where(s.take(i), f) + if f(s[i]) { 1nat } else { 0nat },
{
    assert(s.take(i + 1).drop_last() =~= s.take(i));
}

proof fn lemma_count_positive(s: Seq<char>, f: spec_fn(char) -> bool, i: int)
    requires
        0 <= i < s.len(),
        f(s[i]),
    ensures
        count_where(s, f) > 0,
    decreases s.len(),
{
    if i < s.len() - 1 {
        assert(s.drop_last()[i] == s[i]);
        lemma_count_positive(s.drop_last(), f, i);
    }
}

/// Any kana makes a text Japanese, however many Han characters or English
/// words it also holds.
pub proof fn law_kana_means_japanese(s: Seq<char>, i: int)
    requires
        0 <= i < s.len(),
        '\u{3040}' <= s[i] && s[i] <= '\u{30ff}',
    ensures
        detected_language(s) == "ja"@,
{
    lemma_count_positive(s, |c: char| is_kana(c), i);
}

/// A reply with kana in its first 80 characters, with no fixed language, is
/// spoken by the first configured voice whose language is `ja`: by `aux1`
/// when the primary voice is not Japanese and `aux1` is.
pub proof fn law_kana_reply_takes_japanese_voice(
    text: Seq<char>,
    i: int,
    primary: Seq<char>,
    aux1: Seq<char>,
    aux2: Seq<char>,
)
    requires
        0 <= i < text.len() && i < 80,
        '\u{3040}' <= text[i] && text[i] <= '\u{30ff}',
        before_dash(primary) != "ja"@,
        aux1.len() > 0 && before_dash(aux1) == "ja"@,
    ensures
        selected_voice(text, primary, aux1, aux2, Seq::empty()) == aux1,
{
    let sample = language_sample(text);
    assert(sample[i] == text[i]);
    law_kana_means_japanese(sample, i);
}

proof fn lemma_first_word_len_props(s: Seq<char>)
    ensures
        first_word_len(s) <= s.len(),
        forall|k: int| 0 <= k < first_word_len(s) ==> !is_ws(#[trigger] s[k]),
        first_word_len(s) < s.len() ==> is_ws(s[first_word_len(s) as int]),
    decreases s.len(),
{
    if s.len() > 0 && !is_ws(s[0]) {
        let d = s.drop_first();
        lemma_first_word_len_props(d);
        assert forall|k: int| 0 <= k < first_word_len(s) implies !is_ws(#[trigger] s[k]) by {
            if k > 0 {
                assert(s[k] == d[k - 1]);
            }
        }
        if first_word_len(s) < s.len() {
            assert(s[first_word_len(s) as int] == d[first_word_len(d) as int]);
        }
    }
}

/// Two ASCII letters side by side make an English word.
proof fn lemma_english_word_found(s: Seq<char>, i: int)
    requires
        0 <= i && i + 1 < s.len(),
        is_ascii_alpha(s[i]) && is_ascii_alpha(s[i + 1]),
    ensures
        english_words(s) > 0,
    decreases s.len(),
{
    if is_ws(s[0]) {
        let d = s.drop_first();
        assert(d[i - 1] == s[i] && d[i] == s[i + 1]);
        lemma_english_word_found(d, i - 1);
    } else {
        let n = first_word_len(s) as int;
        lemma_first_word_len_props(s);
        if i + 1 < n {
            let w = s.take(n);
            assert(w[i] == s[i] && w[i + 1] == s[i + 1]);
            lemma_count_two(w, |c: char| is_ascii_alpha(c), i, i + 1);
        } else {
            assert(i >= n);
            let d = s.skip(n);
            assert(d[i - n] == s[i] && d[i - n + 1] == s[i + 1]);
            lemma_english_word_found(d, i - n);
        }
    }
}

/// A text without ASCII letters holds no English word.
proof fn lemma_no_letters_no_words(s: Seq<char>)
    requires
        forall|k: int| 0 <= k < s.len() ==> !is_ascii_alpha(#[trigger] s[k]),
    ensures
        english_words(s) == 0,
    decreases s.len(),
{
    if s.len() > 0 {
        if is_ws(s[0]) {
            let d = s.drop_first();
            assert forall|k: int| 0 <= k < d.len() implies !is_ascii_alpha(#[trigger] d[k]) by {
                assert(d[k] == s[k + 1]);
            }
            lemma_no_letters_no_words(d);
        } else {
            let n = first_word_len(s) as int;
            lemma_first_word_len_props(s);
            let w = s.take(n);
            assert forall|k: int| 0 <= k < w.len() implies !is_ascii_alpha(#[trigger] w[k]) by {
                assert(w[k] == s[k]);
            }
            lemma_count_zero(w, |c: char| is_ascii_alpha(c));
            let d = s.skip(n);
            assert forall|k: int| 0 <= k < d.len() implies !is_ascii_alpha(#[trigger] d[k]) by {
                assert(d[k] == s[k + n]);
            }
            lemma_no_letters_no_words(d);
        }
    }
}

/// Without kana, any Hangul makes a text Korean.
pub proof fn law_hangul_means_korean(s: Seq<char>, i: int)
    requires
        0 <= i < s.len(),
        '\u{ac00}' <= s[i] && s[i] <= '\u{d7af}',
        forall|k: int| 0 <= k < s.len() ==> !('\u{3040}' <= #[trigger] s[k] && s[k] <= '\u{30ff}'),
    ensures
        detected_language(s) == "ko"@,
{
    lemma_count_zero(s, |c: char| is_kana(c));
    lemma_count_positive(s, |c: char| is_hangul(c), i);
}

/// A text with no kana, no Hangul and no ASCII letter is Chinese, whether it
/// holds Han characters or nothing to judge by at all.
pub proof fn law_no_latin_means_chinese(s: Seq<char>)
    requires
        forall|k: int|
            0 <= k < s.len() ==> !('\u{3040}' <= #[trigger] s[k] && s[k] <= '\u{30ff}') && !('\u{ac00}' <= s[k]
                && s[k] <= '\u{d7af}') && !('a' <= s[k] && s[k] <= 'z') && !('A' <= s[k] && s[k] <= 'Z'),
    ensures
        detected_language(s) == "zh"@,
{
    lemma_count_zero(s, |c: char| is_kana(c));
    lemma_count_zero(s, |c: char| is_hangul(c));
    lemma_no_letters_no_words(s);
}

/// A text with no kana, Hangul or Han character is English as soon as two
/// ASCII letters stand side by side in it.
pub proof fn law_latin_word_means_english(s: Seq<char>, i: int)
    requires
        0 <= i && i + 1 < s.len(),
        (('a' <= s[i] && s[i] <= 'z') || ('A' <= s[i] && s[i] <= 'Z')),
        (('a' <= s[i + 1] && s[i + 1] <= 'z') || ('A' <= s[i + 1] && s[i + 1] <= 'Z')),
        forall|k: int|
            0 <= k < s.len() ==> !('\u{3040}' <= #[trigger] s[k] && s[k] <= '\u{30ff}') && !('\u{ac00}' <= s[k]
                && s[k] <= '\u{d7af}') && !('\u{4e00}' <= s[k] && s[k] <= '\u{9fff}'),
    ensures
        detected_language(s) == "en"@,
{
    lemma_count_zero(s, |c: char| is_kana(c));
    lemma_count_zero(s, |c: char| is_hangul(c));
    lemma_count_zero(s, |c: char| is_han(c));
    lemma_english_word_found(s, i);
}

fn english_word_count(v: &Vec<char>) -> (n: usize)
    ensures
        n == english_words(v@),
{
    let ghost s = v@;
    let mut n: usize = 0;
    let mut i: usize = 0;
    assert(s.skip(0) =~= s);
    while i < v.len()
        invariant
            s == v@,
            i <= v.len(),
            n <= i,
            n + english_words(s.skip(i as int)) == english_words(s),
        decreases v.len() - i,
    {
        if is_ws_char(v[i]) {
            assert(s.skip(i as int).drop_first() =~= s.skip(i + 1));
            i += 1;
        } else {
            let start = i;
            let mut letters: usize = 0;
            let mut j = i;
            while j < v.len() && !is_ws_char(v[j])
                invariant
                    s == v@,
                    start <= j <= v.len(),
                    letters <= j - start,
                    forall|k: int| start <= k < j ==> !is_ws(#[trigger] s[k]),
                    letters == ascii_letter_count(s.subrange(start as int, j as int)),
                decreases v.len() - j,
            {
                proof {
                    let w = s.subrange(start as int, j + 1);
                    assert(w.drop_last() =~= s.subrange(start as int, j as int));
                }
                if ('a' <= v[j] && v[j] <= 'z') || ('A' <= v[j] && v[j] <= 'Z') {
                    letters += 1;
                }
                j += 1;
            }
            proof {
                let t = s.skip(start as int);
                assert forall|k: int| 0 <= k < j - start implies !is_ws(#[trigger] t[k]) by {
                    assert(t[k] == s[start + k]);
                }
                if j < v.len() {
                    assert(t[j - start] == s[j as int]);
                }
                lemma_first_word_len(t, j - start);
                assert(t.take(j - start) =~= s.subrange(start as int, j as int));
                assert(t.skip(j - start) =~= s.skip(j as int));
                assert(t[0] == s[start as int]);
            }
            if letters >= 2 {
                n += 1;
            }
            i = j;
        }
    }
    assert(s.skip(v.len() as int).len() == 0);
    n
}

/// Guesses the language of `text` from its characters; see `detected_language`.
pub fn detect_language(text: &str) -> (r: &'static str)
    ensures
        r@ == detected_language(text@),
{
    let v = chars_of(text);
    let ghost s = v@;
    let mut ja: usize = 0;
    let mut ko: usize = 0;
    let mut zh: usize = 0;
    let mut i: usize = 0;
    while i < v.len()
        invariant
            s == v@,
            i <= v.len(),
            ja <= i && ko <= i && zh <= i,
            ja == kana_count(s.take(i as int)),
            ko == hangul_count(s.take(i as int)),
            zh == han_count(s.take(i as int)),
        decreases v.len() - i,
    {
        let ch = v[i];
        proof {
            lemma_count_step(s, i as int, |c: char| is_kana(c));
            lemma_count_step(s, i as int, |c: char| is_hangul(c));
            lemma_count_step(s, i as int, |c: char| is_han(c));
        }
        if ('\u{3040}' <= ch && ch <= '\u{309f}') || ('\u{30a0}' <= ch && ch <= '\u{30ff}') {
            ja += 1;
        } else if '\u{ac00}' <= ch && ch <= '\u{d7af}' {
            ko += 1;
        } else if '\u{4e00}' <= ch && ch <= '\u{9fff}' {
            zh += 1;
        }
        i += 1;
    }
    assert(s.take(v.len() as int) =~= s);
    let en = english_word_count(&v);
    if ja > 0 {
        return "ja";
    }
    if ko > 0 {
        return "ko";
    }
    if zh > en && zh > 0 {
        return "zh";
    }
    if en > 0 {
        return "en";
    }
    "zh"
}

/// The language part of a voice name, before its first `-`
/// (`zh` of `zh-CN-XiaoxiaoNeural`).
pub fn voice_lang(voice: &[char]) -> (r: Vec<char>)
    ensures
        r@ == before_dash(voice@),
{
    before_dash_exec(voice)
}

/// The voice that a fixed-language setting points at: `aux1` or `aux2` when
/// that slot is set, otherwise the primary voice.
pub open spec fn forced_voice(primary: Seq<char>, aux1: Seq<char>, aux2: Seq<char>, fixed: Seq<char>) -> Seq<char> {
    if fixed == "aux1"@ && aux1.len() > 0 {
        aux1
    } else if fixed == "aux2"@ && aux2.len() > 0 {
        aux2
    } else {
        primary
    }
}

fn forced_voice_exec(primary: &Vec<char>, aux1: &Vec<char>, aux2: &Vec<char>, fixed: &Vec<char>) -> (r: Vec<char>)
    ensures
        r@ == forced_voice(primary@, aux1@, aux2@, fixed@),
{
    if is_lit(fixed, "aux1") && aux1.len() > 0 {
        aux1.clone()
    } else if is_lit(fixed, "aux2") && aux2.len() > 0 {
        aux2.clone()
    } else {
        primary.clone()
    }
}

/// How much of a reply its language is judged by: the first 80 characters.
pub const LANGUAGE_SAMPLE_CHARS: usize = 80;

/// The first `LANGUAGE_SAMPLE_CHARS` characters of `text` (all of a shorter one).
pub open spec fn language_sample(text: Seq<char>) -> Seq<char> {
    if text.len() <= LANGUAGE_SAMPLE_CHARS {
        text
    } else {
        text.take(LANGUAGE_SAMPLE_CHARS as int)
    }
}

/// The TTS voice for a reply, judged by the language of its first 80
/// characters. A fixed language forces its voice when the reply is in that
/// voice's language; otherwise the first configured voice (primary, aux1,
/// aux2) whose language matches the reply is taken, else the primary.
pub open spec fn selected_voice(
    text: Seq<char>,
    primary: Seq<char>,
    aux1: Seq<char>,
    aux2: Seq<char>,
    fixed: Seq<char>,
) -> Seq<char> {
    let lang = detected_language(language_sample(text));
    let forced = forced_voice(primary, aux1, aux2, fixed);
    if fixed.len() > 0 && before_dash(forced) == lang {
        forced
    } else if primary.len() > 0 && before_dash(primary) == lang {
        primary
    } else if aux1.len() > 0 && before_dash(aux1) == lang {
        aux1
    } else if aux2.len() > 0 && before_dash(aux2) == lang {
        aux2
    } else {
        primary
    }
}

/// Chooses the TTS voice for `text`; see `selected_voice`. The user's language
/// setting does not take part: the reply's own language decides.
pub fn select_voice(
    text: &str,
    primary: &str,
    aux1: &str,
    aux2: &str,
    fixed_lang: &str,
    _user_lang: &str,
) -> (r: String)
    ensures
        r@ == selected_voice(text@, primary@, aux1@, aux2@, fixed_lang@),
{
    let p = chars_of(primary);
    let a1 = chars_of(aux1);
    let a2 = chars_of(aux2);
    let fixed = chars_of(fixed_lang);
    let all = chars_of(text);
    let n = if all.len() <= LANGUAGE_SAMPLE_CHARS { all.len() } else { LANGUAGE_SAMPLE_CHARS };
    let sample = string_of(&slice_chars(&all, 0, n));
    proof {
        if all.len() <= LANGUAGE_SAMPLE_CHARS {
            assert(all@.subrange(0, n as int) =~= all@);
        }
    }
    let lang = chars_of(detect_language(sample.as_str()));
    if fixed.len() > 0 {
        let forced = forced_voice_exec(&p, &a1, &a2, &fixed);
        let forced_lang = voice_lang(&forced);
        if chars_eq(&forced_lang, &lang) {
            return string_of(&forced);
        }
    }
    if p.len() > 0 && chars_eq(&voice_lang(&p), &lang) {
        return string_of(&p);
    }
    if a1.len() > 0 && chars_eq(&voice_lang(&a1), &lang) {
        return string_of(&a1);
    }
    if a2.len() > 0 && chars_eq(&voice_lang(&a2), &lang) {
        return string_of(&a2);
    }
    string_of(&p)
}

/// The session key of a bridged conversation: `bridge:{source}:{session_id}`,
/// both parts trimmed, so that bridged sessions never mix with the widget's
/// own chat or with another app's.
pub open spec fn bridge_session_key(source: Seq<char>, session_id: Seq<char>) -> Seq<char> {
    "bridge:"@ + trim(source) + ":"@ + trim(session_id)
}

pub fn build_bridge_session_key(source: &str, session_id: &str) -> (r: String)
    ensures
        r@ == bridge_session_key(source@, session_id@),
{
    let prefix = chars_of("bridge:");
    let colon = chars_of(":");
    let src = trim_chars(source);
    let sid = trim_chars(session_id);
    let mut v = concat3(&prefix, &src, &colon);
    append_chars(&mut v, &sid);
    string_of(&v)
}

/// A bridged session never shares its key with the window chat's session of
/// any day (`pocket-agent-<day>`).
pub proof fn law_bridge_session_apart_from_daily(source: Seq<char>, session_id: Seq<char>, day: Seq<char>)
    ensures
        bridge_session_key(source, session_id) != "pocket-agent"@ + "-"@ + day,
{
    reveal_strlit("bridge:");
    reveal_strlit("pocket-agent");
    let k = bridge_session_key(source, session_id);
    let d = "pocket-agent"@ + "-"@ + day;
    assert(k[0] == 'b');
    assert(d[0] == 'p');
}

/// Two apps, or two sessions of one app, never share a bridged session: keys
/// differ whenever the trimmed sources or the trimmed session ids differ, as
/// long as neither source holds a `:`.
pub proof fn law_bridge_sessions_kept_apart(s1: Seq<char>, id1: Seq<char>, s2: Seq<char>, id2: Seq<char>)
    requires
        !trim(s1).contains(':'),
        !trim(s2).contains(':'),
        trim(s1) != trim(s2) || trim(id1) != trim(id2),
    ensures
        bridge_session_key(s1, id1) != bridge_session_key(s2, id2),
{
    reveal_strlit("bridge:");
    reveal_strlit(":");
    let a = trim(s1);
    let b = trim(s2);
    let k1 = bridge_session_key(s1, id1);
    let k2 = bridge_session_key(s2, id2);
    if k1 == k2 {
        let r1 = a + ":"@ + trim(id1);
        let r2 = b + ":"@ + trim(id2);
        assert(r1 =~= k1.skip(7));
        assert(r2 =~= k2.skip(7));
        if a.len() < b.len() {
            assert(r1[a.len() as int] == ':');
            assert(r2[a.len() as int] == b[a.len() as int]);
            assert(b.contains(b[a.len() as int]));
        } else if b.len() < a.len() {
            assert(r2[b.len() as int] == ':');
            assert(r1[b.len() as int] == a[b.len() as int]);
            assert(a.contains(a[b.len() as int]));
        } else {
            assert(a =~= r1.take(a.len() as int));
            assert(b =~= r2.take(b.len() as int));
            assert(trim(id1) =~= r1.skip(a.len() as int + 1));
            assert(trim(id2) =~= r2.skip(b.len() as int + 1));
        }
    }
}

/// English name of a language code, for the reply-language instruction.
pub open spec fn fixed_language_name(code: Seq<char>) -> Seq<char> {
    if code == "ja"@ {
        "Japanese"@
    } else if code == "ko"@ {
        "Korean"@
    } else if code == "en"@ {
        "English"@
    } else if code == "fr"@ {
        "French"@
    } else if code == "de"@ {
        "German"@
    } else if code == "es"@ {
        "Spanish"@
    } else {
        "Chinese"@
    }
}

/// English name of a detected language.
pub open spec fn detected_language_name(code: Seq<char>) -> Seq<char> {
    if code == "en"@ {
        "English"@
    } else if code == "ja"@ {
        "Japanese"@
    } else if code == "ko"@ {
        "Korean"@
    } else {
        "Chinese"@
    }
}

/// The text sent for a widget turn: the user's text followed by
/// ` Please reply in {language}.`, the language being that of the fixed voice
/// when a language is fixed, else the language the text is written in.
pub open spec fn ui_turn_text(
    text: Seq<char>,
    primary: Seq<char>,
    aux1: Seq<char>,
    aux2: Seq<char>,
    fixed: Seq<char>,
) -> Seq<char> {
    let name = if fixed.len() > 0 {
        fixed_language_name(before_dash(forced_voice(primary, aux1, aux2, fixed)))
    } else {
        detected_language_name(detected_language(text))
    };
    text + " Please reply in "@ + name + "."@
}

pub fn build_ui_turn_text(text: &str, primary: &str, aux1: &str, aux2: &str, fixed: &str) -> (r: String)
    ensures
        r@ == ui_turn_text(text@, primary@, aux1@, aux2@, fixed@),
{
    let fixed_v = chars_of(fixed);
    let name: &str = if fixed_v.len() > 0 {
        let forced = forced_voice_exec(&chars_of(primary), &chars_of(aux1), &chars_of(aux2), &fixed_v);
        let code = voice_lang(&forced);
        if is_lit(&code, "ja") {
            "Japanese"
        } else if is_lit(&code, "ko") {
            "Korean"
        } else if is_lit(&code, "en") {
            "English"
        } else if is_lit(&code, "fr") {
            "French"
        } else if is_lit(&code, "de") {
            "German"
        } else if is_lit(&code, "es") {
            "Spanish"
        } else {
            "Chinese"
        }
    } else {
        let code = chars_of(detect_language(text));
        if is_lit(&code, "en") {
            "English"
        } else if is_lit(&code, "ja") {
            "Japanese"
        } else if is_lit(&code, "ko") {
            "Korean"
        } else {
            "Chinese"
        }
    };
    let mut v = concat3(&chars_of(text), &chars_of(" Please reply in "), &chars_of(name));
    append_chars(&mut v, &chars_of("."));
    string_of(&v)
}

} // verus!

verus! {

// ── Emotion ───────────────────────────────────────────────────────────────────

pub open spec fn exclamation_count(s: Seq<char>) -> nat {
    count_where(s, |c: char| c == '!' || c == '！')
}

pub open spec fn question_count(s: Seq<char>) -> nat {
    count_where(s, |c: char| c == '?' || c == '？')
}

/// The tone a reply is spoken in, from its punctuation and a few words:
/// two or more `!` (or 太棒, 搞定, 厉害) is excited; a warning sign or 警告, 危险,
/// 注意 is serious; a 吗 question without `!` is calm; 难过, 遗憾, 抱歉 is sad;
/// a single `!` is cheerful; anything else is friendly.
pub open spec fn detected_emotion(s: Seq<char>) -> Seq<char> {
    if exclamation_count(s) >= 2 || contains(s, "太棒"@) || contains(s, "搞定"@) || contains(s, "厉害"@) {
        "excited"@
    } else if contains(s, "⚠"@) || contains(s, "警告"@) || contains(s, "危险"@) || contains(s, "注意"@) {
        "serious"@
    } else if contains(s, "吗"@) && question_count(s) > 0 && exclamation_count(s) == 0 {
        "calm"@
    } else if contains(s, "难过"@) || contains(s, "遗憾"@) || contains(s, "抱歉"@) {
        "sad"@
    } else if exclamation_count(s) > 0 {
        "cheerful"@
    } else {
        "friendly"@
    }
}

proof fn lemma_count_zero(s: Seq<char>, f: spec_fn(char) -> bool)
    requires
        forall|k: int| 0 <= k < s.len() ==> !f(#[trigger] s[k]),
    ensures
        count_where(s, f) == 0,
    decreases s.len(),
{
    if s.len() > 0 {
        assert(!f(s[s.len() - 1]));
        assert forall|k: int| 0 <= k < s.drop_last().len() implies !f(#[trigger] s.drop_last()[k]) by {
            assert(s.drop_last()[k] == s[k]);
        }
        lemma_count_zero(s.drop_last(), f);
    }
}

/// At most one character for which `f` holds gives a count of at most one.
proof fn lemma_count_at_most_one(s: Seq<char>, f: spec_fn(char) -> bool)
    requires
        forall|i: int, j: int| 0 <= i < j < s.len() && f(#[trigger] s[i]) ==> !f(#[trigger] s[j]),
    ensures
        count_where(s, f) <= 1,
    decreases s.len(),
{
    if s.len() > 0 {
        let d = s.drop_last();
        assert forall|i: int, j: int| 0 <= i < j < d.len() && f(#[trigger] d[i]) implies !f(#[trigger] d[j]) by {
            assert(d[i] == s[i] && d[j] == s[j]);
        }
        if f(s.last()) {
            assert forall|k: int| 0 <= k < d.len() implies !f(#[trigger] d[k]) by {
                assert(d[k] == s[k]);
                assert(s[s.len() - 1] == s.last());
            }
            lemma_count_zero(d, f);
        } else {
            lemma_count_at_most_one(d, f);
        }
    }
}

/// A warning word (⚠, 警告, 危险, 注意) makes a reply serious, unless it is
/// excited: at most one `!` or `！`, and none of 太棒, 搞定, 厉害.
pub proof fn law_warning_words_are_serious(s: Seq<char>)
    requires
        forall|i: int, j: int|
            0 <= i < j < s.len() && (#[trigger] s[i] == '!' || s[i] == '！') ==> !(#[trigger] s[j] == '!' || s[j]
                == '！'),
        !contains(s, "太棒"@) && !contains(s, "搞定"@) && !contains(s, "厉害"@),
        contains(s, "危险"@) || contains(s, "⚠"@) || contains(s, "警告"@) || contains(s, "注意"@),
    ensures
        detected_emotion(s) == "serious"@,
{
    let f = |c: char| c == '!' || c == '！';
    assert forall|i: int, j: int| 0 <= i < j < s.len() && f(#[trigger] s[i]) implies !f(#[trigger] s[j]) by {}
    lemma_count_at_most_one(s, f);
}

proof fn lemma_count_two(s: Seq<char>, f: spec_fn(char) -> bool, i: int, j: int)
    requires
        0 <= i < j < s.len(),
        f(s[i]) && f(s[j]),
    ensures
        count_where(s, f) >= 2,
    decreases s.len(),
{
    let d = s.drop_last();
    assert(d[i] == s[i]);
    if j == s.len() - 1 {
        lemma_count_positive(d, f, i);
    } else {
        assert(d[j] == s[j]);
        lemma_count_two(d, f, i, j);
    }
}

/// Two exclamation marks (`!` or `！`) anywhere make a reply excited, and so
/// does any of 太棒, 搞定, 厉害.
pub proof fn law_exclamations_excite(s: Seq<char>, i: int, j: int)
    requires
        (0 <= i < j < s.len() && (s[i] == '!' || s[i] == '！') && (s[j] == '!' || s[j] == '！')) || contains(
            s,
            "太棒"@,
        ) || contains(s, "搞定"@) || contains(s, "厉害"@),
    ensures
        detected_emotion(s) == "excited"@,
{
    if 0 <= i < j < s.len() && (s[i] == '!' || s[i] == '！') && (s[j] == '!' || s[j] == '！') {
        lemma_count_two(s, |c: char| c == '!' || c == '！', i, j);
    }
}

/// A 吗 question (with `?` or `？`) without any exclamation mark, warning
/// word or excited word is calm.
pub proof fn law_plain_question_is_calm(s: Seq<char>, q: int)
    requires
        0 <= q < s.len() && (s[q] == '?' || s[q] == '？'),
        contains(s, "吗"@),
        forall|k: int| 0 <= k < s.len() ==> #[trigger] s[k] != '!' && s[k] != '！',
        !contains(s, "太棒"@) && !contains(s, "搞定"@) && !contains(s, "厉害"@),
        !contains(s, "⚠"@) && !contains(s, "警告"@) && !contains(s, "危险"@) && !contains(s, "注意"@),
    ensures
        detected_emotion(s) == "calm"@,
{
    lemma_count_positive(s, |c: char| c == '?' || c == '？', q);
    lemma_count_zero(s, |c: char| c == '!' || c == '！');
}

/// Without exclamation marks and without any of the marked words
/// (太棒, 搞定, 厉害, ⚠, 警告, 危险, 注意, 难过, 遗憾, 抱歉), a reply that is
/// not a 吗 question is friendly.
pub proof fn law_unmarked_reply_is_friendly(s: Seq<char>)
    requires
        forall|k: int| 0 <= k < s.len() ==> #[trigger] s[k] != '!' && s[k] != '！',
        !contains(s, "太棒"@) && !contains(s, "搞定"@) && !contains(s, "厉害"@),
        !contains(s, "⚠"@) && !contains(s, "警告"@) && !contains(s, "危险"@) && !contains(s, "注意"@),
        !contains(s, "吗"@),
        !contains(s, "难过"@) && !contains(s, "遗憾"@) && !contains(s, "抱歉"@),
    ensures
        detected_emotion(s) == "friendly"@,
{
    lemma_count_zero(s, |c: char| c == '!' || c == '！');
}

/// 难过, 遗憾 or 抱歉 make a reply sad, unless it is excited, serious or a
/// calm question: at most one exclamation mark, none of 太棒, 搞定, 厉害, ⚠,
/// 警告, 危险, 注意, and no 吗.
pub proof fn law_regret_words_are_sad(s: Seq<char>)
    requires
        forall|i: int, j: int|
            0 <= i < j < s.len() && (#[trigger] s[i] == '!' || s[i] == '！') ==> !(#[trigger] s[j] == '!' || s[j]
                == '！'),
        !contains(s, "太棒"@) && !contains(s, "搞定"@) && !contains(s, "厉害"@),
        !contains(s, "⚠"@) && !contains(s, "警告"@) && !contains(s, "危险"@) && !contains(s, "注意"@),
        !contains(s, "吗"@),
        contains(s, "难过"@) || contains(s, "遗憾"@) || contains(s, "抱歉"@),
    ensures
        detected_emotion(s) == "sad"@,
{
    let f = |c: char| c == '!' || c == '！';
    assert forall|i: int, j: int| 0 <= i < j < s.len() && f(#[trigger] s[i]) implies !f(#[trigger] s[j]) by {}
    lemma_count_at_most_one(s, f);
}

/// A single exclamation mark, with none of the marked words, is cheerful.
pub proof fn law_one_exclamation_is_cheerful(s: Seq<char>, i: int)
    requires
        0 <= i < s.len() && (s[i] == '!' || s[i] == '！'),
        forall|k: int| 0 <= k < s.len() && k != i ==> #[trigger] s[k] != '!' && s[k] != '！',
        !contains(s, "太棒"@) && !contains(s, "搞定"@) && !contains(s, "厉害"@),
        !contains(s, "⚠"@) && !contains(s, "警告"@) && !contains(s, "危险"@) && !contains(s, "注意"@),
        !contains(s, "难过"@) && !contains(s, "遗憾"@) && !contains(s, "抱歉"@),
    ensures
        detected_emotion(s) == "cheerful"@,
{
    let f = |c: char| c == '!' || c == '！';
    lemma_count_positive(s, f, i);
    assert forall|a: int, b: int| 0 <= a < b < s.len() && f(#[trigger] s[a]) implies !f(#[trigger] s[b]) by {}
    lemma_count_at_most_one(s, f);
}

fn has_lit(v: &Vec<char>, lit: &str) -> (r: bool)
    ensures
        r == contains(v@, lit@),
{
    contains_exec(v, &chars_of(lit))
}

/// Picks the tone for `text`; see `detected_emotion`. None of the marks looked
/// for is a cased letter, so the case of `text` plays no part.
pub fn detect_emotion(text: &str) -> (r: String)
    ensures
        r@ == detected_emotion(text@),
{
    let v = chars_of(text);
    let ghost s = v@;
    let mut excl: usize = 0;
    let mut quest: usize = 0;
    let mut i: usize = 0;
    while i < v.len()
        invariant
            s == v@,
            i <= v.len(),
            excl <= i && quest <= i,
            excl == exclamation_count(s.take(i as int)),
            quest == question_count(s.take(i as int)),
        decreases v.len() - i,
    {
        proof {
            lemma_count_step(s, i as int, |c: char| c == '!' || c == '！');
            lemma_count_step(s, i as int, |c: char| c == '?' || c == '？');
        }
        if v[i] == '!' || v[i] == '！' {
            excl += 1;
        }
        if v[i] == '?' || v[i] == '？' {
            quest += 1;
        }
        i += 1;
    }
    assert(s.take(v.len() as int) =~= s);
    let r: &str = if excl >= 2 || has_lit(&v, "太棒") || has_lit(&v, "搞定") || has_lit(&v, "厉害") {
        "excited"
    } else if has_lit(&v, "⚠") || has_lit(&v, "警告") || has_lit(&v, "危险") || has_lit(&v, "注意") {
        "serious"
    } else if has_lit(&v, "吗") && quest > 0 && excl == 0 {
        "calm"
    } else if has_lit(&v, "难过") || has_lit(&v, "遗憾") || has_lit(&v, "抱歉") {
        "sad"
    } else if excl > 0 {
        "cheerful"
    } else {
        "friendly"
    };
    string_of(&chars_of(r))
}

/// Speaking rate and volume adjustments for a tone, as edge-tts takes them.
pub open spec fn prosody_of(emotion: Seq<char>) -> (Seq<char>, Seq<char>) {
    if emotion == "cheerful"@ {
        ("+15%"@, "+30%"@)
    } else if emotion == "sad"@ {
        ("-20%"@, "-20%"@)
    } else if emotion == "angry"@ {
        ("+20%"@, "+40%"@)
    } else if emotion == "calm"@ {
        ("+0%"@, "-5%"@)
    } else if emotion == "excited"@ {
        ("+15%"@, "+35%"@)
    } else if emotion == "whisper"@ {
        ("-15%"@, "-30%"@)
    } else if emotion == "serious"@ {
        ("-5%"@, "+10%"@)
    } else if emotion == "friendly"@ {
        ("+5%"@, "+10%"@)
    } else {
        ("+0%"@, "+0%"@)
    }
}

pub fn emotion_to_prosody(emotion: &str) -> (r: (&'static str, &'static str))
    ensures
        (r.0@, r.1@) == prosody_of(emotion@),
{
    let e = chars_of(emotion);
    if is_lit(&e, "cheerful") {
        ("+15%", "+30%")
    } else if is_lit(&e, "sad") {
        ("-20%", "-20%")
    } else if is_lit(&e, "angry") {
        ("+20%", "+40%")
    } else if is_lit(&e, "calm") {
        ("+0%", "-5%")
    } else if is_lit(&e, "excited") {
        ("+15%", "+35%")
    } else if is_lit(&e, "whisper") {
        ("-15%", "-30%")
    } else if is_lit(&e, "serious") {
        ("-5%", "+10%")
    } else if is_lit(&e, "friendly") {
        ("+5%", "+10%")
    } else {
        ("+0%", "+0%")
    }
}

} // verus!
