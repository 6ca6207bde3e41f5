//! Sample-level helpers: mixing interleaved channels down to one.
use vstd::prelude::*;

verus! {

/// Sum of `s[a..b]`.
pub open spec fn sum_range(s: Seq<i16>, a: int, b: int) -> int
    decreases b - a,
{
    if b <= a {
        0
    } else {
        sum_range(s, a, b - 1) + s[b - 1] as int
    }
}

/// Integer division rounding toward zero, as Rust's `/` on integers does.
pub open spec fn div_toward_zero(a: int, b: int) -> int {
    if a >= 0 {
        a / b
    } else {
        -((-a) / b)
    }
}

/// The mono signal of interleaved `samples` with `channels` channels: each
/// whole frame becomes the average of its channels (rounded toward zero); a
/// trailing partial frame is dropped. One channel (or zero) passes through.
pub open spec fn mono_of(samples: Seq<i16>, channels: u16) -> Seq<i16> {
    if channels <= 1 {
        samples
    } else {
        let ch = channels as int;
        Seq::new(
            (samples.len() as int / ch) as nat,
            |i: int| div_toward_zero(sum_range(samples, i * ch, i * ch + ch), ch) as i16,
        )
    }
}

proof fn lemma_sum_range_bounds(s: Seq<i16>, a: int, b: int)
    requires
        0 <= a <= b <= s.len(),
    ensures
        -32768 * (b - a) <= sum_range(s, a, b) <= 32767 * (b - a),
    decreases b - a,
{
    if b > a {
        lemma_sum_range_bounds(s, a, b - 1);
    }
}

proof fn lemma_avg_bounds(sum: int, ch: int)
    requires
        ch >= 1,
        -32768 * ch <= sum <= 32767 * ch,
    ensures
        -32768 <= div_toward_zero(sum, ch) <= 32767,
{
    if sum >= 0 {
        assert(sum / ch <= 32767) by (nonlinear_arith)
            requires
                ch >= 1,
                0 <= sum <= 32767 * ch,
        ;
        assert(sum / ch >= 0) by (nonlinear_arith)
            requires
                ch >= 1,
                0 <= sum,
        ;
    } else {
        assert((-sum) / ch <= 32768) by (nonlinear_arith)
            requires
                ch >= 1,
                0 < -sum <= 32768 * ch,
        ;
        assert((-sum) / ch >= 0) by (nonlinear_arith)
            requires
                ch >= 1,
                0 < -sum,
        ;
    }
}

fn div_i32_toward_zero(a: i32, b: i32) -> (r: i32)
    requires
        b >= 1,
    ensures
        r == div_toward_zero(a as int, b as int),
{
    if a >= 0 {
        a / b
    } else {
        let na: i64 = -(a as i64);
        let q: i64 = na / (b as i64);
        assert(q <= na) by (nonlinear_arith)
            requires
                q == na / (b as i64),
                na >= 0,
                b >= 1,
        ;
        (-q) as i32
    }
}

/// Mixes interleaved `samples` down to one channel; see `mono_of`.
pub fn downmix_to_mono(samples: &[i16], channels: u16) -> (r: Vec<i16>)
    ensures
        r@ == mono_of(samples@, channels),
{
    if channels <= 1 {
        let mut v: Vec<i16> = Vec::new();
        let mut k: usize = 0;
        while k < samples.len()
            invariant
                k <= samples.len(),
                v@ == samples@.take(k as int),
            decreases samples.len() - k,
        {
            v.push(samples[k]);
            assert(samples@.take(k + 1) =~= samples@.take(k as int).push(samples@[k as int]));
            k += 1;
        }
        assert(samples@.take(samples.len() as int) =~= samples@);
        return v;
    }
    let ch = channels as usize;
    let frames = samples.len() / ch;
    let ghost spec_out = mono_of(samples@, channels);
    let mut out: Vec<i16> = Vec::new();
    let mut i: usize = 0;
    while i < frames
        invariant
            ch == channels as usize,
            ch >= 2,
            frames == samples.len() / ch,
            spec_out == mono_of(samples@, channels),
            i <= frames,
            out@ == spec_out.take(i as int),
        decreases frames - i,
    {
        assert(i * ch + ch <= samples.len()) by (nonlinear_arith)
            requires
                i < frames,
                frames == samples.len() / ch,
                ch >= 2,
        ;
        let base = i * ch;
        let mut sum: i32 = 0;
        let mut c: usize = 0;
        while c < ch
            invariant
                ch >= 2,
                ch == channels as usize,
                base + ch <= samples.len(),
                c <= ch,
                sum == sum_range(samples@, base as int, (base + c) as int),
            decreases ch - c,
        {
            proof {
                lemma_sum_range_bounds(samples@, base as int, (base + c) as int);
                assert(c * 32768 <= 65535 * 32768) by (nonlinear_arith)
                    requires
                        c < ch,
                        ch <= 65535,
                ;
            }
            sum = sum + samples[base + c] as i32;
            c += 1;
        }
        proof {
            lemma_sum_range_bounds(samples@, base as int, (base + ch) as int);
            lemma_avg_bounds(sum as int, ch as int);
        }
        let avg = div_i32_toward_zero(sum, ch as i32);
        out.push(avg as i16);
        assert(spec_out.take(i + 1) =~= spec_out.take(i as int).push(spec_out[i as int]));
        i += 1;
    }
    assert(spec_out.len() == frames);
    assert(spec_out.take(frames as int) =~= spec_out);
    out
}


pub open spec fn magnitude(x: i16) -> int {
    if x < 0 {
        -(x as int)
    } else {
        x as int
    }
}

/// The sample of largest magnitude in `frame` (the first of equals; 0 for an
/// empty frame).
pub open spec fn loudest(frame: Seq<i16>) -> i16
    decreases frame.len(),
{
    if frame.len() == 0 {
        0
    } else {
        let acc = loudest(frame.drop_last());
        if magnitude(frame.last()) > magnitude(acc) {
            frame.last()
        } else {
            acc
        }
    }
}

/// One sample per whole frame of `channels` (at least one) interleaved
/// channels: the loudest of the frame, so that a device that fills only one
/// channel of a stereo stream is not halved. A trailing partial frame is
/// dropped.
pub open spec fn loudest_of(samples: Seq<i16>, channels: u16) -> Seq<i16> {
    let ch = if channels == 0 { 1int } else { channels as int };
    Seq::new((samples.len() as int / ch) as nat, |i: int| loudest(samples.subrange(i * ch, i * ch + ch)))
}

fn loudest_in(samples: &[i16], from: usize, ch: usize) -> (r: i16)
    requires
        from + ch <= samples.len(),
    ensures
        r == loudest(samples@.subrange(from as int, from + ch)),
{
    let mut acc: i16 = 0;
    let mut k: usize = 0;
    while k < ch
        invariant
            k <= ch,
            from + ch <= samples.len(),
            acc == loudest(samples@.subrange(from as int, from + k)),
        decreases ch - k,
    {
        let s = samples[from + k];
        assert(samples@.subrange(from as int, from + k + 1).drop_last() =~= samples@.subrange(from as int, from + k));
        let ms: u16 = if s < 0 { (-(s as i32)) as u16 } else { s as u16 };
        let ma: u16 = if acc < 0 { (-(acc as i32)) as u16 } else { acc as u16 };
        if ms > ma {
            acc = s;
        }
        k += 1;
    }
    acc
}

/// Reduces interleaved `samples` to one channel; see `loudest_of`.
pub fn loudest_per_frame(samples: &[i16], channels: u16) -> (r: Vec<i16>)
    ensures
        r@ == loudest_of(samples@, channels),
{
    let ch: usize = if channels == 0 { 1 } else { channels as usize };
    let n = samples.len();
    let frames = n / ch;
    let mut out: Vec<i16> = Vec::new();
    let mut i: usize = 0;
    while i < frames
        invariant
            ch >= 1,
            n == samples@.len(),
            ch == (if channels == 0 { 1int } else { channels as int }),
            frames == samples@.len() as int / (ch as int),
            i <= frames,
            out@.len() == i,
            forall|j: int| 0 <= j < i ==> out@[j] == loudest(samples@.subrange(j * ch, j * ch + ch)),
        decreases frames - i,
    {
        assert((i + 1) * ch <= samples@.len()) by (nonlinear_arith)
            requires
                i < frames,
                frames == samples@.len() as int / (ch as int),
                ch >= 1,
        ;
        assert(i * ch + ch == (i + 1) * ch) by (nonlinear_arith);
        assert(i * ch <= (i + 1) * ch) by (nonlinear_arith)
            requires
                ch >= 1,
        ;
        let v = loudest_in(samples, i * ch, ch);
        out.push(v);
        i += 1;
    }
    assert(out@ =~= loudest_of(samples@, channels));
    out
}

} // verus!
