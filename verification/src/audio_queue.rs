//! Book-keeping of the speech pipeline: how many sentences are queued for
//! synthesis and playback, which generation of audio is current, which chat
//! turn is current, and when the end of a turn's audio is announced.
//!
//! A stop (hotkey press, barge-in) starts a new audio generation: work queued
//! under an older generation is dropped and no longer counts against the
//! queue. The threads that generate and play audio live outside the library
//! and report to this state.
use vstd::prelude::*;

verus! {

/// At most this many sentences wait in the speech pipeline at once; a push
/// beyond it is answered 429.
pub const MAX_AUDIO_QUEUE: usize = 3;

pub struct AudioQueue {
    /// Generation of the audio now wanted; older work is stale.
    pub generation: u64,
    /// Sentences reserved and not yet finished, for the current generation.
    pub depth: usize,
    /// Generation of the chat turn now running; an older turn is superseded.
    pub turn_generation: u64,
    /// Spoken (non-status) sentences of the current generation submitted
    /// and not yet played out.
    pub pending_non_silent: i64,
    /// No more spoken sentences will be submitted for the current generation.
    pub submission_done: bool,
    /// Generation for which the end of a turn's audio was announced; 0 for none.
    pub done_emitted_gen: u64,
}

/// One step on, as an atomic counter's `fetch_add(1)` does (it wraps).
pub open spec fn next_gen(g: u64) -> u64 {
    if g == u64::MAX {
        0
    } else {
        (g + 1) as u64
    }
}

fn bump(g: u64) -> (r: u64)
    ensures
        r == next_gen(g),
{
    if g == u64::MAX {
        0
    } else {
        g + 1
    }
}

impl AudioQueue {
    /// The queue never holds more than `MAX_AUDIO_QUEUE` sentences.
    pub open spec fn wf(&self) -> bool {
        self.depth <= MAX_AUDIO_QUEUE
    }

    pub fn new() -> (q: AudioQueue)
        ensures
            q.wf(),
            q.generation == 0,
            q.depth == 0,
            q.turn_generation == 0,
            q.pending_non_silent == 0,
            q.submission_done,
            q.done_emitted_gen == 0,
    {
        AudioQueue {
            generation: 0,
            depth: 0,
            turn_generation: 0,
            pending_non_silent: 0,
            submission_done: true,
            done_emitted_gen: 0,
        }
    }
}

/// The queue is full: a push request is answered with "too many requests".
pub fn is_queue_full(q: &AudioQueue) -> (r: bool)
    ensures
        r == (q.depth >= MAX_AUDIO_QUEUE),
{
    q.depth >= MAX_AUDIO_QUEUE
}

/// The outcome of a reservation.
pub struct Reservation {
    pub reserved: bool,
    /// The queue went from empty to busy: wake-word listening must pause so
    /// the assistant's own voice cannot wake it.
    pub pause_wake: bool,
}

pub open spec fn reserve_spec(q: AudioQueue) -> (AudioQueue, Reservation) {
    if q.depth >= MAX_AUDIO_QUEUE {
        (q, Reservation { reserved: false, pause_wake: false })
    } else {
        (AudioQueue { depth: (q.depth + 1) as usize, ..q }, Reservation { reserved: true, pause_wake: q.depth == 0 })
    }
}

/// Reserves a place for one sentence; refused when the queue is full.
pub fn audio_queue_reserve(q: &mut AudioQueue) -> (r: Reservation)
    requires
        old(q).wf(),
    ensures
        final(q).wf(),
        (*final(q), r) == reserve_spec(*old(q)),
{
    if q.depth >= MAX_AUDIO_QUEUE {
        return Reservation { reserved: false, pause_wake: false };
    }
    let was_empty = q.depth == 0;
    q.depth = q.depth + 1;
    Reservation { reserved: true, pause_wake: was_empty }
}

pub open spec fn release_spec(q: AudioQueue, generation: u64) -> (AudioQueue, bool) {
    if generation != q.generation || q.depth == 0 {
        (q, false)
    } else {
        (AudioQueue { depth: (q.depth - 1) as usize, ..q }, q.depth == 1)
    }
}

/// Gives back the place of a sentence of `generation` once it is done.
/// Stale generations and an empty queue leave the count alone. Returns true
/// when the queue just became empty, so wake-word listening may resume after
/// a short grace period.
pub fn audio_queue_release(q: &mut AudioQueue, generation: u64) -> (resume_wake: bool)
    requires
        old(q).wf(),
    ensures
        final(q).wf(),
        (*final(q), resume_wake) == release_spec(*old(q), generation),
{
    if generation != q.generation || q.depth == 0 {
        return false;
    }
    let was_last = q.depth == 1;
    q.depth = q.depth - 1;
    was_last
}

/// Empties the queue count (on stop or cancel).
pub fn audio_queue_reset(q: &mut AudioQueue)
    ensures
        *final(q) == (AudioQueue { depth: 0, ..*old(q) }),
{
    q.depth = 0;
}

/// Prepares the end-of-audio announcement for a freshly started generation,
/// before any of its sentences are submitted.
pub fn begin_audio_submission(q: &mut AudioQueue)
    ensures
        *final(q) == (AudioQueue {
            pending_non_silent: 0,
            submission_done: false,
            done_emitted_gen: 0,
            ..*old(q)
        }),
{
    q.pending_non_silent = 0;
    q.submission_done = false;
    q.done_emitted_gen = 0;
}

pub open spec fn audio_done_spec(q: AudioQueue, generation: u64) -> (AudioQueue, bool) {
    if generation == q.generation && q.submission_done && q.pending_non_silent <= 0 && q.done_emitted_gen
        == 0 {
        (AudioQueue { done_emitted_gen: generation, ..q }, true)
    } else {
        (q, false)
    }
}

/// Whether the end of the turn's audio is to be announced now for
/// `generation`: it must be current, all its spoken sentences submitted and
/// played, and the announcement not made yet. Records the announcement.
pub fn maybe_emit_audio_done(q: &mut AudioQueue, generation: u64) -> (emit: bool)
    ensures
        (*final(q), emit) == audio_done_spec(*old(q), generation),
{
    if generation != q.generation {
        return false;
    }
    if !q.submission_done {
        return false;
    }
    if q.pending_non_silent > 0 {
        return false;
    }
    if q.done_emitted_gen == 0 {
        q.done_emitted_gen = generation;
        true
    } else {
        false
    }
}

pub open spec fn i64_next(x: i64) -> i64 {
    if x == i64::MAX {
        i64::MIN
    } else {
        (x + 1) as i64
    }
}

pub open spec fn i64_prev(x: i64) -> i64 {
    if x == i64::MIN {
        i64::MAX
    } else {
        (x - 1) as i64
    }
}

/// A spoken sentence of `generation` was handed to the pipeline; it counts
/// towards the turn's pending audio only while its generation is current.
pub fn note_sentence_submitted(q: &mut AudioQueue, generation: u64)
    ensures
        *final(q) == if generation == old(q).generation {
            AudioQueue { pending_non_silent: i64_next(old(q).pending_non_silent), ..*old(q) }
        } else {
            *old(q)
        },
{
    if generation == q.generation {
        q.pending_non_silent = if q.pending_non_silent == i64::MAX {
            i64::MIN
        } else {
            q.pending_non_silent + 1
        };
    }
}

/// A spoken sentence finished playing.
pub fn note_sentence_played(q: &mut AudioQueue)
    ensures
        *final(q) == (AudioQueue { pending_non_silent: i64_prev(old(q).pending_non_silent), ..*old(q) }),
{
    q.pending_non_silent = if q.pending_non_silent == i64::MIN {
        i64::MAX
    } else {
        q.pending_non_silent - 1
    };
}

/// The submitter will hand over no more spoken sentences for this generation.
pub fn mark_submission_done(q: &mut AudioQueue)
    ensures
        *final(q) == (AudioQueue { submission_done: true, ..*old(q) }),
{
    q.submission_done = true;
}

/// Starts a new audio generation for a turn that is about to speak, and
/// gives it back.
pub fn next_audio_generation(q: &mut AudioQueue) -> (g: u64)
    ensures
        g == next_gen(old(q).generation),
        *final(q) == (AudioQueue { generation: g, ..*old(q) }),
{
    q.generation = bump(q.generation);
    q.generation
}

/// Starts a new chat turn, superseding the one in progress, and gives back
/// its generation.
pub fn begin_turn(q: &mut AudioQueue) -> (t: u64)
    ensures
        t == next_gen(old(q).turn_generation),
        *final(q) == (AudioQueue { turn_generation: t, ..*old(q) }),
{
    q.turn_generation = bump(q.turn_generation);
    q.turn_generation
}

/// A turn of generation `turn` has been superseded by a newer one.
pub fn is_superseded(q: &AudioQueue, turn: u64) -> (r: bool)
    ensures
        r == (turn != q.turn_generation),
{
    turn != q.turn_generation
}

pub open spec fn stop_spec(q: AudioQueue) -> AudioQueue {
    AudioQueue {
        generation: next_gen(q.generation),
        turn_generation: next_gen(q.turn_generation),
        depth: 0,
        ..q
    }
}

/// Stops all speech: a new audio generation (queued work becomes stale), a
/// new turn generation (the streaming turn stops submitting), and an empty
/// queue.
pub fn stop_audio_queue(q: &mut AudioQueue)
    ensures
        final(q).wf(),
        *final(q) == stop_spec(*old(q)),
{
    q.generation = bump(q.generation);
    q.turn_generation = bump(q.turn_generation);
    audio_queue_reset(q);
}

/// Drops the turn in progress and its audio without touching the queue count.
pub fn discard_pending_turn(q: &mut AudioQueue)
    ensures
        *final(q) == (AudioQueue {
            generation: next_gen(old(q).generation),
            turn_generation: next_gen(old(q).turn_generation),
            ..*old(q)
        }),
{
    q.turn_generation = bump(q.turn_generation);
    q.generation = bump(q.generation);
}

/// Whether a job of `generation` is still wanted; a stale job is dropped and
/// its place given back.
pub fn audio_job_current(q: &AudioQueue, generation: u64) -> (r: bool)
    ensures
        r == (generation == q.generation),
{
    generation == q.generation
}

/// What follows the end of a played sentence.
pub struct PlaybackDone {
    /// The queue became empty: wake-word listening may resume after a grace period.
    pub resume_wake: bool,
    /// Announce that the turn's audio is over.
    pub audio_done: bool,
}

pub open spec fn playback_done_spec(q: AudioQueue, generation: u64, silent: bool) -> (AudioQueue, PlaybackDone) {
    let (q1, resume) = release_spec(q, generation);
    if silent {
        (q1, PlaybackDone { resume_wake: resume, audio_done: false })
    } else {
        let q2 = AudioQueue { pending_non_silent: i64_prev(q1.pending_non_silent), ..q1 };
        let (q3, done) = audio_done_spec(q2, generation);
        (q3, PlaybackDone { resume_wake: resume, audio_done: done })
    }
}

/// A sentence of `generation` has been played (or could not be): its place
/// is given back, and a spoken one counts off the turn's pending audio,
/// which may end the turn's audio.
pub fn playback_finished(q: &mut AudioQueue, generation: u64, silent: bool) -> (r: PlaybackDone)
    requires
        old(q).wf(),
    ensures
        final(q).wf(),
        (*final(q), r) == playback_done_spec(*old(q), generation, silent),
{
    let resume_wake = audio_queue_release(q, generation);
    if silent {
        return PlaybackDone { resume_wake, audio_done: false };
    }
    note_sentence_played(q);
    let audio_done = maybe_emit_audio_done(q, generation);
    PlaybackDone { resume_wake, audio_done }
}

// ── Laws ──────────────────────────────────────────────────────────────────────

/// Every operation keeps at most `MAX_AUDIO_QUEUE` sentences in the queue.
pub proof fn law_queue_bounded(q: AudioQueue, generation: u64)
    requires
        q.wf(),
    ensures
        reserve_spec(q).0.wf(),
        release_spec(q, generation).0.wf(),
        stop_spec(q).wf(),
{
}

/// A full queue refuses a reservation and stays as it was.
pub proof fn law_full_queue_refuses(q: AudioQueue)
    requires
        q.depth >= MAX_AUDIO_QUEUE,
    ensures
        !reserve_spec(q).1.reserved,
        reserve_spec(q).0 == q,
{
}

/// Reserving a place and releasing it under the current generation gives back
/// the state from before.
pub proof fn law_reserve_then_release(q: AudioQueue)
    requires
        q.wf(),
        q.depth < MAX_AUDIO_QUEUE,
    ensures
        reserve_spec(q).1.reserved,
        release_spec(reserve_spec(q).0, q.generation).0 == q,
{
}

/// After a stop, work of the stopped generation that finishes late changes
/// nothing: the count of the new generation stays untouched.
pub proof fn law_stale_release_after_stop(q: AudioQueue)
    ensures
        release_spec(stop_spec(q), q.generation).0 == stop_spec(q),
        !release_spec(stop_spec(q), q.generation).1,
{
}

/// The end of a turn's audio is announced at most once: once announced for a
/// generation, no further call announces it again until a new submission
/// begins.
pub proof fn law_audio_done_once(q: AudioQueue, g1: u64, g2: u64)
    requires
        g1 != 0,
        audio_done_spec(q, g1).1,
    ensures
        !audio_done_spec(audio_done_spec(q, g1).0, g2).1,
{
}


/// The end of a turn's audio is announced when its last spoken sentence has
/// played, not before: while other spoken sentences are pending, a finished
/// one announces nothing; the last one does (if not announced yet).
pub proof fn law_audio_done_after_last_sentence(q: AudioQueue)
    requires
        q.submission_done,
        q.done_emitted_gen == 0,
        q.pending_non_silent >= 1,
    ensures
        q.pending_non_silent > 1 ==> !playback_done_spec(q, q.generation, false).1.audio_done,
        q.pending_non_silent == 1 ==> playback_done_spec(q, q.generation, false).1.audio_done,
{
}

} // verus!
