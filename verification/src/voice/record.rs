//! Who holds the microphone, the ring buffer of recent samples that voice
//! activity detection reads, and the handshake with the recording daemon.
//!
//! Ownership transitions: from NONE to any owner; from an owner back to NONE
//! on release; re-acquiring by the same owner is a no-op. Any other
//! acquisition is refused with `capture busy: <holder>`. Pre-empting a
//! wake-word listener is done by stopping it first.
use vstd::prelude::*;

use crate::text::{append_chars, chars_of, string_of};

verus! {

pub const OWNER_NONE: u8 = 0;
pub const OWNER_SINGLE_SHOT: u8 = 1;
pub const OWNER_CONVERSATION: u8 = 2;
pub const OWNER_WAKE: u8 = 3;

pub open spec fn owner_name_spec(o: u8) -> Seq<char> {
    if o == OWNER_NONE {
        "none"@
    } else if o == OWNER_SINGLE_SHOT {
        "single_shot"@
    } else if o == OWNER_CONVERSATION {
        "conversation"@
    } else if o == OWNER_WAKE {
        "wake"@
    } else {
        "?"@
    }
}

pub fn owner_name(o: u8) -> (r: &'static str)
    ensures
        r@ == owner_name_spec(o),
{
    if o == OWNER_NONE {
        "none"
    } else if o == OWNER_SINGLE_SHOT {
        "single_shot"
    } else if o == OWNER_CONVERSATION {
        "conversation"
    } else if o == OWNER_WAKE {
        "wake"
    } else {
        "?"
    }
}

/// The current holder of the capture device.
pub struct CaptureState {
    pub owner: u8,
}

pub fn current_owner(c: &CaptureState) -> (r: u8)
    ensures
        r == c.owner,
{
    c.owner
}

pub open spec fn acquire_spec(c: CaptureState, owner: u8) -> (CaptureState, Result<(), Seq<char>>) {
    if c.owner == OWNER_NONE {
        (CaptureState { owner }, Ok(()))
    } else if c.owner == owner {
        (c, Ok(()))
    } else {
        (c, Err("capture busy: "@ + owner_name_spec(c.owner)))
    }
}

pub open spec fn result_view(r: Result<(), String>) -> Result<(), Seq<char>> {
    match r {
        Ok(()) => Ok(()),
        Err(e) => Err(e@),
    }
}

/// Takes the capture device for `owner` when it is free; see `acquire_spec`.
pub fn try_acquire_capture(c: &mut CaptureState, owner: u8) -> (r: Result<(), String>)
    ensures
        (*final(c), result_view(r)) == acquire_spec(*old(c), owner),
{
    if c.owner == OWNER_NONE {
        c.owner = owner;
        Ok(())
    } else if c.owner == owner {
        Ok(())
    } else {
        let mut msg = chars_of("capture busy: ");
        append_chars(&mut msg, &chars_of(owner_name(c.owner)));
        Err(string_of(&msg))
    }
}

pub open spec fn release_spec(c: CaptureState, expected: u8) -> CaptureState {
    if c.owner == expected {
        CaptureState { owner: OWNER_NONE }
    } else {
        c
    }
}

/// Frees the capture device if `expected` holds it; a stale release leaves a
/// newer holder alone.
pub fn release_capture(c: &mut CaptureState, expected: u8)
    ensures
        *final(c) == release_spec(*old(c), expected),
{
    if c.owner == expected {
        c.owner = OWNER_NONE;
    }
}

/// A single-shot recording may start: refused during a conversation; a
/// wake-word listener must be stopped first (`Ok(true)`).
pub open spec fn single_shot_start_spec(owner: u8, busy_message: Seq<char>) -> Result<bool, Seq<char>> {
    if owner == OWNER_CONVERSATION {
        Err(busy_message)
    } else {
        Ok(owner == OWNER_WAKE)
    }
}

/// How a single-shot voice recording starts, given who holds the microphone.
pub fn voice_recording_start(owner: u8) -> (r: Result<bool, String>)
    ensures
        match r {
            Ok(b) => single_shot_start_spec(owner, "连续对话进行中，无法启动单次录音"@) == Ok::<bool, Seq<char>>(b),
            Err(e) => single_shot_start_spec(owner, "连续对话进行中，无法启动单次录音"@) == Err::<bool, Seq<char>>(e@),
        },
{
    if owner == OWNER_CONVERSATION {
        Err(string_of(&chars_of("连续对话进行中，无法启动单次录音")))
    } else {
        Ok(owner == OWNER_WAKE)
    }
}

/// How a speaker-enrollment recording starts, given who holds the microphone.
pub fn enroll_recording_start(owner: u8) -> (r: Result<bool, String>)
    ensures
        match r {
            Ok(b) => single_shot_start_spec(owner, "连续对话进行中，无法启动唤醒词录制"@) == Ok::<bool, Seq<char>>(b),
            Err(e) => single_shot_start_spec(owner, "连续对话进行中，无法启动唤醒词录制"@) == Err::<bool, Seq<char>>(e@),
        },
{
    if owner == OWNER_CONVERSATION {
        Err(string_of(&chars_of("连续对话进行中，无法启动唤醒词录制")))
    } else {
        Ok(owner == OWNER_WAKE)
    }
}

/// Two owners, neither of them NONE, never hold the device at once: a second
/// owner's acquisition fails and leaves the holder in place.
pub proof fn law_capture_exclusive(c: CaptureState, a: u8, b: u8)
    requires
        a != OWNER_NONE,
        b != a,
    ensures
        acquire_spec(acquire_spec(c, a).0, b).1 is Err || c.owner == b,
        acquire_spec(acquire_spec(c, a).0, b).1 is Err ==> acquire_spec(acquire_spec(c, a).0, b).0
            == acquire_spec(c, a).0,
{
}

/// Acquiring and then releasing by the same owner frees the device, when it
/// was free before.
pub proof fn law_acquire_release(owner: u8)
    ensures
        release_spec(acquire_spec(CaptureState { owner: OWNER_NONE }, owner).0, owner) == (CaptureState {
            owner: OWNER_NONE,
        }),
{
}

// ── Ring buffer of recent samples ─────────────────────────────────────────────

/// About three seconds of 16 kHz audio.
pub const VAD_RING_CAP: usize = 48000;

pub struct VadRing {
    pub buf: Vec<i16>,
    /// Next slot to overwrite once the buffer is full.
    pub pos: usize,
}

impl VadRing {
    pub fn new() -> (r: VadRing)
        ensures
            r.wf(),
            r.buf@.len() == 0,
            r.pos == 0,
    {
        VadRing { buf: Vec::new(), pos: 0 }
    }

    pub open spec fn wf(&self) -> bool {
        &&& self.buf@.len() <= VAD_RING_CAP
        &&& self.pos < VAD_RING_CAP
        &&& self.buf@.len() < VAD_RING_CAP ==> self.pos == self.buf@.len()
    }
}

/// The samples of a ring, oldest first.
pub open spec fn ring_order(buf: Seq<i16>, pos: int) -> Seq<i16> {
    if buf.len() < VAD_RING_CAP {
        buf
    } else {
        buf.skip(pos) + buf.take(pos)
    }
}

/// The last `n` elements of `s` (all of them when `s` is shorter).
pub open spec fn last_n<T>(s: Seq<T>, n: int) -> Seq<T> {
    if s.len() <= n {
        s
    } else {
        s.skip(s.len() - n)
    }
}

/// Writing samples one by one into a full ring, from `pos` on.
pub open spec fn ring_write(buf: Seq<i16>, pos: int, samples: Seq<i16>) -> (Seq<i16>, int)
    decreases samples.len(),
{
    if samples.len() == 0 {
        (buf, pos)
    } else {
        ring_write(buf.update(pos, samples[0]), (pos + 1) % (VAD_RING_CAP as int), samples.drop_first())
    }
}

/// What a push does to the ring.
pub open spec fn push_spec(buf: Seq<i16>, pos: int, samples: Seq<i16>) -> (Seq<i16>, int) {
    let cap = VAD_RING_CAP as int;
    if buf.len() < cap {
        let take = if samples.len() < cap - buf.len() {
            samples.len() as int
        } else {
            cap - buf.len()
        };
        let b1 = buf + samples.take(take);
        if take < samples.len() {
            let extra = samples.skip(take);
            let w = if extra.len() < cap {
                extra.len() as int
            } else {
                cap
            };
            // at most a ring's worth fits: the latest of the overflow is kept
            (extra.skip(extra.len() - w).take(w) + b1.skip(w), w % cap)
        } else {
            (b1, (b1.len() as int) % cap)
        }
    } else {
        ring_write(buf, pos, samples)
    }
}

fn write_one(r: &mut VadRing, s: i16)
    requires
        old(r).wf(),
        old(r).buf@.len() == VAD_RING_CAP,
    ensures
        final(r).wf(),
        final(r).buf@.len() == VAD_RING_CAP,
        final(r).buf@ == old(r).buf@.update(old(r).pos as int, s),
        final(r).pos == (old(r).pos + 1) % (VAD_RING_CAP as int),
{
    let p = r.pos;
    r.buf.set(p, s);
    r.pos = if p + 1 == VAD_RING_CAP {
        0
    } else {
        p + 1
    };
}

/// Appends samples from the recording callback, keeping about the last three
/// seconds; see `push_spec`.
pub fn push_vad_samples(r: &mut VadRing, samples: &[i16])
    requires
        old(r).wf(),
    ensures
        final(r).wf(),
        (final(r).buf@, final(r).pos as int) == push_spec(old(r).buf@, old(r).pos as int, samples@),
        // the ring holds the latest samples, oldest first
        ring_order(final(r).buf@, final(r).pos as int) == last_n(
            ring_order(old(r).buf@, old(r).pos as int) + samples@,
            VAD_RING_CAP as int,
        ),
{
    proof {
        law_ring_keeps_latest(old(r).buf@, old(r).pos as int, samples@);
    }
    let cap = VAD_RING_CAP;
    if r.buf.len() < cap {
        let remaining = cap - r.buf.len();
        let take = if samples.len() < remaining {
            samples.len()
        } else {
            remaining
        };
        let ghost b0 = r.buf@;
        let mut k: usize = 0;
        while k < take
            invariant
                k <= take <= samples.len(),
                take <= remaining,
                remaining == cap - b0.len(),
                r.buf@ == b0 + samples@.take(k as int),
            decreases take - k,
        {
            r.buf.push(samples[k]);
            assert(b0 + samples@.take(k + 1) =~= (b0 + samples@.take(k as int)).push(samples@[k as int]));
            k += 1;
        }
        let ghost b1 = r.buf@;
        r.pos = r.buf.len() % cap;
        if take < samples.len() {
            let extra_len = samples.len() - take;
            let write_len = if extra_len < cap {
                extra_len
            } else {
                cap
            };
            let from = take + (extra_len - write_len);
            assert(samples@.skip(from as int) =~= samples@.skip(take as int).skip(extra_len - write_len));
            let mut j: usize = 0;
            while j < write_len
                invariant
                    j <= write_len <= cap,
                    write_len <= extra_len,
                    extra_len == samples.len() - take,
                    from == take + (extra_len - write_len),
                    b1.len() == cap,
                    r.buf@.len() == cap,
                    r.buf@ == samples@.skip(from as int).take(j as int) + b1.skip(j as int),
                decreases write_len - j,
            {
                r.buf.set(j, samples[from + j]);
                assert(samples@.skip(from as int).take(j + 1) + b1.skip(j + 1) =~= (samples@.skip(from as int).take(
                    j as int,
                ) + b1.skip(j as int)).update(j as int, samples@[from + j]));
                j += 1;
            }
            r.pos = write_len % cap;
        }
    } else {
        let mut k: usize = 0;
        assert(samples@.skip(0) =~= samples@);
        while k < samples.len()
            invariant
                k <= samples.len(),
                r.wf(),
                r.buf@.len() == VAD_RING_CAP,
                ring_write(old(r).buf@, old(r).pos as int, samples@) == ring_write(
                    r.buf@,
                    r.pos as int,
                    samples@.skip(k as int),
                ),
            decreases samples.len() - k,
        {
            assert(samples@.skip(k as int).drop_first() =~= samples@.skip(k + 1));
            assert(samples@.skip(k as int)[0] == samples@[k as int]);
            write_one(r, samples[k]);
            k += 1;
        }
        assert(samples@.skip(samples.len() as int).len() == 0);
    }
}

/// The `max_samples` most recent samples, oldest first.
pub fn read_vad_samples(r: &VadRing, max_samples: usize) -> (out: Vec<i16>)
    requires
        r.wf(),
    ensures
        out@ == last_n(ring_order(r.buf@, r.pos as int), max_samples as int),
{
    let cap = VAD_RING_CAP;
    let len = r.buf.len();
    let n = if len < max_samples {
        len
    } else {
        max_samples
    };
    let ghost order = ring_order(r.buf@, r.pos as int);
    let ghost want = last_n(order, max_samples as int);
    assert(order.len() == len);
    if n == 0 {
        assert(want =~= Seq::<i16>::empty());
        return Vec::new();
    }
    let start: usize = if len >= cap {
        let a = r.pos + (len - n);
        if a >= cap {
            a - cap
        } else {
            a
        }
    } else {
        len - n
    };
    let mut out: Vec<i16> = Vec::new();
    let mut i: usize = 0;
    while i < n
        invariant
            cap == VAD_RING_CAP,
            r.wf(),
            len == r.buf@.len(),
            order == ring_order(r.buf@, r.pos as int),
            order.len() == len,
            want == last_n(order, max_samples as int),
            n == (if len < max_samples { len } else { max_samples }),
            1 <= n <= len,
            start < cap,
            len < cap ==> start == len - n,
            len >= cap ==> start == (if r.pos + len - n >= cap { r.pos + len - n - cap } else { r.pos + len - n }),
            i <= n,
            out@ == want.take(i as int),
        decreases n - i,
    {
        let idx: usize = if start + i >= cap {
            start + i - cap
        } else {
            start + i
        };
        proof {
            assert(want.len() == n);
            let k = len - n + i;
            if len >= cap {
                assert(len == cap);
                assert(want == order.skip(len - n));
                assert(want[i as int] == order[k]);
                if k < cap - r.pos {
                    assert(order[k] == r.buf@.skip(r.pos as int)[k]);
                    assert(order[k] == r.buf@[r.pos + k]);
                } else {
                    assert(order[k] == r.buf@.take(r.pos as int)[k - (cap - r.pos)]);
                    assert(order[k] == r.buf@[k - (cap - r.pos)]);
                }
            } else {
                if len <= max_samples {
                    assert(want == order);
                } else {
                    assert(want == order.skip(len - n));
                }
                assert(want[i as int] == order[k]);
            }
        }
        out.push(r.buf[idx]);
        assert(want.take(i + 1) =~= want.take(i as int).push(want[i as int]));
        i += 1;
    }
    assert(want.take(n as int) =~= want);
    out
}

/// Forgets all samples.
pub fn clear_vad_samples(r: &mut VadRing)
    ensures
        final(r).wf(),
        final(r).buf@.len() == 0,
        final(r).pos == 0,
{
    r.buf.clear();
    r.pos = 0;
}


proof fn lemma_write_one(buf: Seq<i16>, pos: int, x: i16)
    requires
        buf.len() == VAD_RING_CAP,
        0 <= pos < VAD_RING_CAP,
    ensures
        ring_order(buf.update(pos, x), (pos + 1) % (VAD_RING_CAP as int)) == ring_order(buf, pos).drop_first().push(x),
{
    let cap = VAD_RING_CAP as int;
    let b2 = buf.update(pos, x);
    let o = ring_order(buf, pos);
    let p2 = (pos + 1) % cap;
    if pos + 1 == cap {
        assert(p2 == 0);
    } else {
        assert(p2 == pos + 1);
    }
    assert(ring_order(b2, p2) =~= o.drop_first().push(x)) by {
        assert forall|k: int| 0 <= k < cap implies #[trigger] ring_order(b2, p2)[k] == o.drop_first().push(x)[k] by {
            if k == cap - 1 {
                if p2 == 0 {
                    assert(ring_order(b2, p2)[k] == b2[k]);
                } else {
                    assert(ring_order(b2, p2)[k] == b2.take(p2)[k - (cap - p2)]);
                }
            } else {
                assert(o.drop_first().push(x)[k] == o[k + 1]);
                if k + 1 < cap - pos {
                    assert(o[k + 1] == buf[pos + k + 1]);
                } else {
                    assert(o[k + 1] == buf[k + 1 - (cap - pos)]);
                }
                if p2 == 0 {
                    assert(ring_order(b2, p2)[k] == b2[k]);
                } else if k < cap - p2 {
                    assert(ring_order(b2, p2)[k] == b2[p2 + k]);
                } else {
                    assert(ring_order(b2, p2)[k] == b2.take(p2)[k - (cap - p2)]);
                }
            }
        }
    }
}

proof fn lemma_ring_write(buf: Seq<i16>, pos: int, samples: Seq<i16>)
    requires
        buf.len() == VAD_RING_CAP,
        0 <= pos < VAD_RING_CAP,
    ensures
        ring_write(buf, pos, samples).0.len() == VAD_RING_CAP,
        0 <= ring_write(buf, pos, samples).1 < VAD_RING_CAP,
        ring_order(ring_write(buf, pos, samples).0, ring_write(buf, pos, samples).1) == last_n(
            ring_order(buf, pos) + samples,
            VAD_RING_CAP as int,
        ),
    decreases samples.len(),
{
    let cap = VAD_RING_CAP as int;
    let o = ring_order(buf, pos);
    if samples.len() == 0 {
        assert(o + samples =~= o);
    } else {
        let x = samples[0];
        let b2 = buf.update(pos, x);
        let p2 = (pos + 1) % cap;
        lemma_write_one(buf, pos, x);
        lemma_ring_write(b2, p2, samples.drop_first());
        let o2 = o.drop_first().push(x);
        // last CAP of (o2 + rest) is last CAP of (o + samples)
        let all = o + samples;
        assert(o2 + samples.drop_first() =~= all.skip(1));
        assert(last_n(all.skip(1), cap) =~= last_n(all, cap));
    }
}

/// What a read gives back of the writes: the ring holds the latest samples
/// pushed, oldest first, up to its capacity, so `read_vad_samples` returns the
/// most recent ones in the order they were pushed.
pub proof fn law_ring_keeps_latest(buf: Seq<i16>, pos: int, samples: Seq<i16>)
    requires
        buf.len() <= VAD_RING_CAP,
        0 <= pos < VAD_RING_CAP,
        buf.len() < VAD_RING_CAP ==> pos == buf.len(),
    ensures
        ring_order(push_spec(buf, pos, samples).0, push_spec(buf, pos, samples).1) == last_n(
            ring_order(buf, pos) + samples,
            VAD_RING_CAP as int,
        ),
{
    let cap = VAD_RING_CAP as int;
    if buf.len() < cap {
        let take = if samples.len() < cap - buf.len() {
            samples.len() as int
        } else {
            cap - buf.len()
        };
        let b1 = buf + samples.take(take);
        assert(ring_order(buf, pos) == buf);
        if take < samples.len() {
            let extra = samples.skip(take);
            let e = extra.len() as int;
            assert(b1.len() == cap);
            let all = buf + samples;
            assert(all =~= b1 + extra);
            if e > cap {
                let b2 = extra.skip(e - cap).take(cap) + b1.skip(cap);
                assert(b2 =~= extra.skip(e - cap));
                assert(ring_order(b2, 0) =~= b2);
                assert(last_n(all, cap) =~= extra.skip(e - cap));
            } else if e == cap {
                let b2 = extra.skip(0).take(e) + b1.skip(e);
                assert(extra.skip(0).take(e) =~= extra);
                assert(ring_order(b2, e % cap) =~= b2.skip(0) + b2.take(0));
                assert(b2 =~= extra);
                assert(last_n(all, cap) =~= extra);
                assert(ring_order(b2, 0) =~= extra);
            } else {
                let b2 = extra.skip(0).take(e) + b1.skip(e);
                assert(extra.skip(0).take(e) =~= extra);
                assert(e % cap == e);
                assert(ring_order(b2, e) =~= b1.skip(e) + extra);
                assert(last_n(all, cap) =~= b1.skip(e) + extra);
            }
        } else {
            assert(samples.take(take) =~= samples);
            if b1.len() < cap {
                assert(last_n(buf + samples, cap) == buf + samples);
            } else {
                assert((b1.len() as int) % cap == 0);
                assert(ring_order(b1, 0) =~= b1);
                assert(last_n(buf + samples, cap) == buf + samples);
            }
        }
    } else {
        lemma_ring_write(buf, pos, samples);
    }
}


/// The ring after pushing each of `pushes` in turn into a cleared ring.
pub open spec fn ring_after(pushes: Seq<Seq<i16>>) -> (Seq<i16>, int)
    decreases pushes.len(),
{
    if pushes.len() == 0 {
        (Seq::empty(), 0)
    } else {
        let (b, p) = ring_after(pushes.drop_last());
        push_spec(b, p, pushes.last())
    }
}

/// Every sample pushed, in order.
pub open spec fn pushed_history(pushes: Seq<Seq<i16>>) -> Seq<i16>
    decreases pushes.len(),
{
    if pushes.len() == 0 {
        Seq::empty()
    } else {
        pushed_history(pushes.drop_last()) + pushes.last()
    }
}

/// The shape a ring keeps: at most full, and filled in order until it is.
pub open spec fn ring_shape_ok(buf: Seq<i16>, pos: int) -> bool {
    &&& buf.len() <= VAD_RING_CAP
    &&& 0 <= pos < VAD_RING_CAP
    &&& buf.len() < VAD_RING_CAP ==> pos == buf.len()
}

proof fn lemma_push_keeps_shape(buf: Seq<i16>, pos: int, samples: Seq<i16>)
    requires
        ring_shape_ok(buf, pos),
    ensures
        ring_shape_ok(push_spec(buf, pos, samples).0, push_spec(buf, pos, samples).1),
{
    if buf.len() == VAD_RING_CAP {
        lemma_ring_write(buf, pos, samples);
    }
}

proof fn lemma_last_n_twice(h: Seq<i16>, s: Seq<i16>, n: int)
    requires
        n >= 0,
    ensures
        last_n(last_n(h, n) + s, n) == last_n(h + s, n),
{
    let a = last_n(h, n) + s;
    let b = h + s;
    if b.len() <= n {
        assert(last_n(h, n) == h);
        assert(a =~= b);
    } else if a.len() <= n {
        if h.len() > n {
            // h was cut to its last n, and nothing was added
            assert(s.len() == 0);
            assert(a =~= last_n(h, n));
            assert(b =~= h);
        } else {
            assert(last_n(h, n) == h);
            assert(a =~= b);
        }
    } else {
        assert(last_n(a, n) =~= last_n(b, n)) by {
            assert forall|k: int| 0 <= k < n implies #[trigger] last_n(a, n)[k] == last_n(b, n)[k] by {
                if k >= n - s.len() {
                    assert(last_n(a, n)[k] == s[k - (n - s.len())]);
                    assert(last_n(b, n)[k] == s[k - (n - s.len())]);
                } else {
                    let j = k + s.len() - n;
                    assert(last_n(a, n)[k] == a[a.len() - n + k]);
                    assert(last_n(b, n)[k] == b[b.len() - n + k]);
                    assert(a[a.len() - n + k] == last_n(h, n)[last_n(h, n).len() - n + k + s.len()]);
                    assert(b[b.len() - n + k] == h[h.len() - n + k + s.len()]);
                    if h.len() > n {
                        assert(last_n(h, n)[last_n(h, n).len() - n + k + s.len()] == h[h.len() - n + k + s.len()]);
                    }
                }
            }
        }
    }
}

/// What a read gives back of all the writes since the ring was cleared:
/// whatever the pushes, the ring holds the newest samples of everything
/// pushed, oldest first, so a read of `n` returns the last `n` of them (at
/// most a ring's worth).
pub proof fn law_ring_holds_newest_history(pushes: Seq<Seq<i16>>, n: int)
    requires
        n >= 0,
    ensures
        ring_shape_ok(ring_after(pushes).0, ring_after(pushes).1),
        ring_order(ring_after(pushes).0, ring_after(pushes).1) == last_n(pushed_history(pushes), VAD_RING_CAP as int),
        last_n(ring_order(ring_after(pushes).0, ring_after(pushes).1), n) == last_n(
            pushed_history(pushes),
            if n < VAD_RING_CAP { n } else { VAD_RING_CAP as int },
        ),
    decreases pushes.len(),
{
    let cap = VAD_RING_CAP as int;
    if pushes.len() == 0 {
        assert(ring_order(Seq::<i16>::empty(), 0) =~= Seq::<i16>::empty());
    } else {
        let prev = pushes.drop_last();
        law_ring_holds_newest_history(prev, n);
        let (b, p) = ring_after(prev);
        lemma_push_keeps_shape(b, p, pushes.last());
        law_ring_keeps_latest(b, p, pushes.last());
        lemma_last_n_twice(pushed_history(prev), pushes.last(), cap);
    }
    let h = pushed_history(pushes);
    let o = ring_order(ring_after(pushes).0, ring_after(pushes).1);
    let m = if n < cap { n } else { cap };
    assert(last_n(o, n) =~= last_n(h, m));
}

// ── Recording daemon handshake ────────────────────────────────────────────────

/// Proof that a single-shot recording is running.
pub struct RecordingHandle {
    pub _priv: (),
}

/// What the library knows of the recording daemon.
pub struct DaemonStatus {
    /// A stream is built and waiting for a start.
    pub stream_ready: bool,
    /// The daemon confirmed that recording has started.
    pub start_ack: bool,
}

/// The recording started early by the hotkey, if the daemon confirmed it.
pub fn take_pre_started(daemon: Option<&DaemonStatus>) -> (r: Option<RecordingHandle>)
    ensures
        r.is_some() == (daemon matches Some(d) && d.start_ack),
{
    match daemon {
        Some(d) => {
            if d.start_ack {
                Some(RecordingHandle { _priv: () })
            } else {
                None
            }
        },
        None => None,
    }
}

/// Starts a recording when the early start did not happen. `reply` is the
/// daemon's answer to a start request (`None`: it did not answer in time);
/// it is not looked at when the daemon had already confirmed a start.
pub fn start_recording(daemon: &mut Option<DaemonStatus>, reply: Option<Result<(), String>>) -> (r: Result<
    RecordingHandle,
    String,
>)
    ensures
        match *old(daemon) {
            None => r is Err && r->Err_0@ == "audio not initialized"@ && (*final(daemon)).is_none(),
            Some(d) => {
                if d.start_ack {
                    r is Ok && *final(daemon) == *old(daemon)
                } else {
                    match reply {
                        Some(Ok(())) => r is Ok && *final(daemon) == Some(
                            DaemonStatus { start_ack: true, ..d },
                        ),
                        Some(Err(e)) => r is Err && r->Err_0 == e && *final(daemon) == *old(daemon),
                        None => r is Err && r->Err_0@ == "start timeout"@ && *final(daemon) == *old(daemon),
                    }
                }
            },
        },
{
    match daemon {
        None => Err(string_of(&chars_of("audio not initialized"))),
        Some(d) => {
            if d.start_ack {
                return Ok(RecordingHandle { _priv: () });
            }
            match reply {
                Some(Ok(())) => {
                    d.start_ack = true;
                    Ok(RecordingHandle { _priv: () })
                },
                Some(Err(e)) => Err(e),
                None => Err(string_of(&chars_of("start timeout"))),
            }
        },
    }
}

/// Stops the single-shot recording. The microphone is released whatever
/// happens; `reply` is the daemon's answer to the stop request (the path of
/// the finished WAV, or an error; `None`: no answer in time).
pub fn stop_recording_no_handle(
    capture: &mut CaptureState,
    daemon: &mut Option<DaemonStatus>,
    reply: Option<Result<String, String>>,
) -> (r: Result<String, String>)
    ensures
        *final(capture) == release_spec(*old(capture), OWNER_SINGLE_SHOT),
        match *old(daemon) {
            None => r is Err && r->Err_0@ == "audio not initialized"@ && (*final(daemon)).is_none(),
            Some(d) => {
                &&& *final(daemon) == Some(DaemonStatus { start_ack: false, ..d })
                &&& match reply {
                    Some(res) => r == res,
                    None => r is Err && r->Err_0@ == "stop timeout"@,
                }
            },
        },
{
    release_capture(capture, OWNER_SINGLE_SHOT);
    match daemon {
        None => Err(string_of(&chars_of("audio not initialized"))),
        Some(d) => {
            d.start_ack = false;
            match reply {
                Some(res) => res,
                None => Err(string_of(&chars_of("stop timeout"))),
            }
        },
    }
}


/// The sending end of a std channel, carried through opaquely.
#[verifier::external_type_specification]
#[verifier::external_body]
#[verifier::reject_recursive_types(T)]
pub struct ExSender<T>(std::sync::mpsc::Sender<T>);

/// A running streaming capture: the channel that stops its thread, and the
/// device's sample rate and channel count.
pub struct StreamingHandle {
    pub stop_tx: std::sync::mpsc::Sender<()>,
    pub sample_rate: u32,
    pub channels: u16,
}

/// `Sender::send` of the stop signal; whether it arrives depends on whether
/// the capture thread still listens, so nothing is stated of the result.
#[verifier::external_body]
fn send_stop(tx: &std::sync::mpsc::Sender<()>) -> (delivered: bool) {
    tx.send(()).is_ok()
}

/// Stops a streaming capture: its thread drops the stream and releases the
/// microphone on its own. Stopping a capture that already ended is harmless.
pub fn stop_streaming_capture(handle: StreamingHandle) {
    let _ = send_stop(&handle.stop_tx);
}

/// How starting a streaming capture went, after the microphone was taken
/// for its owner.
pub enum StreamingStart {
    /// The capture thread could not be spawned.
    SpawnFailed(String),
    /// The device runs at this sample rate with this many channels.
    Ready(u32, u16),
    /// The capture thread failed to open the device (it releases the
    /// microphone itself as it ends).
    Failed(String),
    /// The capture thread did not answer in time.
    TimedOut,
}

/// The outcome of starting a streaming capture for `owner`: a running
/// capture's handle, or the error. Where the capture thread will not release
/// the microphone itself (it never ran, or it hangs), it is released here.
pub fn streaming_start_outcome(
    capture: &mut CaptureState,
    owner: u8,
    start: StreamingStart,
    stop_tx: std::sync::mpsc::Sender<()>,
) -> (r: Result<StreamingHandle, String>)
    ensures
        match start {
            StreamingStart::SpawnFailed(e) => r is Err && r->Err_0@ == "spawn: "@ + e@ && *final(capture)
                == release_spec(*old(capture), owner),
            StreamingStart::Ready(rate, ch) => r is Ok && r->Ok_0.sample_rate == rate && r->Ok_0.channels == ch
                && *final(capture) == *old(capture),
            StreamingStart::Failed(e) => r == Err::<StreamingHandle, String>(e) && *final(capture) == *old(capture),
            StreamingStart::TimedOut => r is Err && r->Err_0@ == "streaming start timeout"@ && *final(capture)
                == release_spec(*old(capture), owner),
        },
{
    match start {
        StreamingStart::SpawnFailed(e) => {
            release_capture(capture, owner);
            let mut m = chars_of("spawn: ");
            append_chars(&mut m, &chars_of(e.as_str()));
            Err(string_of(&m))
        },
        StreamingStart::Ready(rate, ch) => Ok(StreamingHandle { stop_tx, sample_rate: rate, channels: ch }),
        StreamingStart::Failed(e) => Err(e),
        StreamingStart::TimedOut => {
            release_capture(capture, owner);
            Err(string_of(&chars_of("streaming start timeout")))
        },
    }
}

/// What the capture thread of `owner` leaves behind as it ends, however it
/// ends: the microphone released (unless someone newer holds it), the
/// recent samples forgotten, and the input level (returned) back to zero.
pub fn streaming_capture_ended(capture: &mut CaptureState, ring: &mut VadRing, owner: u8) -> (level: u32)
    ensures
        *final(capture) == release_spec(*old(capture), owner),
        final(ring).wf(),
        final(ring).buf@.len() == 0,
        final(ring).pos == 0,
        level == 0,
{
    release_capture(capture, owner);
    clear_vad_samples(ring);
    0
}

} // verus!
