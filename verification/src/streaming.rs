//! Chunked streaming-transcription state.
//!
//! One session owns a [`StreamingState`]. The capture side repeatedly peeks
//! the samples recorded since `finalized_offset`; when at least half a second
//! is available it runs a fast partial transcription and feeds the text to
//! [`StreamingState::apply_partial`], which tracks partial-text stability,
//! finalizes chunks so long recordings never re-transcribe old audio, and
//! reports the text to display. The loop around the calls — waiting, polling
//! the active flag, the transcription itself — stays outside the library.

use vstd::prelude::*;
use vstd::string::*;

use crate::text::push_char;
use crate::WHISPER_SAMPLE_RATE;

verus! {

/// A chunk is eligible for finalization after this many samples (15 s).
pub const MAX_CHUNK_SAMPLES: usize = 240000;

/// A chunk is finalized unconditionally after this many samples (20 s), which
/// bounds the per-cycle transcription cost whatever the recording length.
pub const FORCE_FINALIZE_SAMPLES: usize = 320000;

/// How many identical consecutive partials count as a stable text.
pub const STABILIZE_ITERS: usize = 2;

/// How many polls of the active flag make up the initial grace wait.
pub const GRACE_POLL_COUNT: usize = 24;

/// How many polls of the active flag sit between transcription cycles.
pub const IDLE_POLL_COUNT: usize = 10;

/// Poll interval of the active flag, in milliseconds.
pub const POLL_INTERVAL_MS: u64 = 50;

/// Whether a peeked span is long enough (at least half a second) to
/// transcribe.
pub fn should_transcribe(chunk_len: usize) -> (r: bool)
    ensures
        r == (chunk_len >= WHISPER_SAMPLE_RATE / 2),
{
    chunk_len >= WHISPER_SAMPLE_RATE / 2
}

/// Per-session streaming state. It has a single writer — the streaming loop —
/// until the session stops; the finish pipeline then reads it exactly once.
pub struct StreamingState {
    /// Text of all finalized chunks, space-joined.
    pub finalized_text: String,
    /// How many captured samples the finalized text covers. Monotone.
    pub finalized_offset: usize,
    /// The previous partial transcription, for stability tracking.
    pub prev_partial: String,
    /// How many consecutive identical partials have been seen.
    pub stable_count: usize,
    /// The text most recently reported for display.
    pub prev_displayed: String,
}

/// Mathematical model of a [`StreamingState`].
pub struct StreamingModel {
    pub finalized_text: Seq<char>,
    pub finalized_offset: int,
    pub prev_partial: Seq<char>,
    pub stable_count: int,
    pub prev_displayed: Seq<char>,
}

impl View for StreamingState {
    type V = StreamingModel;

    open spec fn view(&self) -> StreamingModel {
        StreamingModel {
            finalized_text: self.finalized_text@,
            finalized_offset: self.finalized_offset as int,
            prev_partial: self.prev_partial@,
            stable_count: self.stable_count as int,
            prev_displayed: self.prev_displayed@,
        }
    }
}

/// The freshly reset model: everything empty, offset zero.
pub open spec fn fresh_streaming_model(m: StreamingModel) -> bool {
    &&& m.finalized_text.len() == 0
    &&& m.finalized_offset == 0
    &&& m.prev_partial.len() == 0
    &&& m.stable_count == 0
    &&& m.prev_displayed.len() == 0
}

/// The display text: finalized text and current partial, space-joined, with
/// an empty side dropped.
pub open spec fn joined_display(finalized: Seq<char>, partial: Seq<char>) -> Seq<char> {
    if finalized.len() == 0 {
        partial
    } else if partial.len() == 0 {
        finalized
    } else {
        finalized.push(' ') + partial
    }
}

/// The stability counter after seeing `partial`: reset on any change or on an
/// empty partial, incremented (up to the machine limit) on an exact repeat.
pub open spec fn next_stable_count(count: int, partial: Seq<char>, prev: Seq<char>) -> int {
    if partial.len() > 0 && partial == prev {
        if count < usize::MAX {
            count + 1
        } else {
            count
        }
    } else {
        0
    }
}

/// Whether a chunk is finalized: a long-enough chunk whose text held still,
/// or any chunk over the hard cap, stable or not.
pub open spec fn should_finalize(chunk_len: int, stable: int) -> bool {
    (chunk_len >= MAX_CHUNK_SAMPLES && stable >= STABILIZE_ITERS) || chunk_len
        >= FORCE_FINALIZE_SAMPLES
}

/// One streaming cycle after a successful partial transcription: the next
/// state and the text to display, if it changed.
pub open spec fn streaming_step(m: StreamingModel, chunk_len: int, partial: Seq<char>) -> (
    StreamingModel,
    Option<Seq<char>>,
) {
    let full = joined_display(m.finalized_text, partial);
    let stable = next_stable_count(m.stable_count, partial, m.prev_partial);
    let after = if should_finalize(chunk_len, stable) {
        StreamingModel {
            finalized_text: full,
            finalized_offset: m.finalized_offset + chunk_len,
            prev_partial: Seq::empty(),
            stable_count: 0,
            prev_displayed: m.prev_displayed,
        }
    } else {
        StreamingModel {
            finalized_text: m.finalized_text,
            finalized_offset: m.finalized_offset,
            prev_partial: partial,
            stable_count: stable,
            prev_displayed: m.prev_displayed,
        }
    };
    if full != m.prev_displayed {
        (StreamingModel { prev_displayed: full, ..after }, Some(full))
    } else {
        (after, None)
    }
}

/// Joins finalized text and partial for display.
fn join_display(finalized: &String, partial: &String) -> (r: String)
    ensures
        r@ == joined_display(finalized@, partial@),
{
    if finalized.as_str().is_empty() {
        partial.clone()
    } else if partial.as_str().is_empty() {
        finalized.clone()
    } else {
        let mut out = finalized.clone();
        push_char(&mut out, ' ');
        out.append(partial.as_str());
        out
    }
}

impl StreamingState {
    /// A fresh state for a new session.
    pub fn new() -> (s: StreamingState)
        ensures
            fresh_streaming_model(s@),
    {
        StreamingState {
            finalized_text: String::new(),
            finalized_offset: 0,
            prev_partial: String::new(),
            stable_count: 0,
            prev_displayed: String::new(),
        }
    }

    /// Applies one partial-transcription result for the span of `chunk_len`
    /// samples that starts at `finalized_offset`. Returns the text to show
    /// in the overlay when it differs from what is already shown.
    pub fn apply_partial(&mut self, chunk_len: usize, partial: &String) -> (display: Option<
        String,
    >)
        requires
            old(self)@.finalized_offset + chunk_len <= usize::MAX,
        ensures
            ({
                let (after, shown) = streaming_step(old(self)@, chunk_len as int, partial@);
                &&& final(self)@ == after
                &&& match shown {
                    Some(t) => display matches Some(d) && d@ == t,
                    None => display is None,
                }
            }),
    {
        let full = join_display(&self.finalized_text, partial);

        if partial.as_str().is_empty() == false && *partial == self.prev_partial {
            if self.stable_count < usize::MAX {
                self.stable_count = self.stable_count + 1;
            }
        } else {
            self.stable_count = 0;
        }

        let finalize = (chunk_len >= MAX_CHUNK_SAMPLES && self.stable_count >= STABILIZE_ITERS)
            || chunk_len >= FORCE_FINALIZE_SAMPLES;
        if finalize {
            self.finalized_text = full.clone();
            self.finalized_offset = self.finalized_offset + chunk_len;
            self.prev_partial = String::new();
            self.stable_count = 0;
        } else {
            self.prev_partial = partial.clone();
        }

        if full != self.prev_displayed {
            self.prev_displayed = full.clone();
            Some(full)
        } else {
            None
        }
    }

    /// The streamed text the finish pipeline may reuse: the last displayed
    /// text, if the loop ever displayed anything.
    pub fn streamed_text(&self) -> (r: Option<String>)
        ensures
            self@.prev_displayed.len() > 0 ==> (r matches Some(t) && t@ == self@.prev_displayed),
            self@.prev_displayed.len() == 0 ==> r is None,
    {
        if self.prev_displayed.as_str().is_empty() {
            None
        } else {
            Some(self.prev_displayed.clone())
        }
    }
}

/// The finalized offset never decreases, and advances by at most the span
/// just examined: after a step on a span of `chunk_len` samples, the new
/// offset is bounded by the old offset plus `chunk_len`. In particular, when
/// every span peeked starts at the current offset and ends at the number of
/// samples observed so far, the offset can never exceed that number.
pub proof fn lemma_offset_monotone_and_bounded(
    m: StreamingModel,
    chunk_len: int,
    partial: Seq<char>,
    total: int,
)
    requires
        chunk_len >= 0,
        m.finalized_offset + chunk_len <= total,
    ensures
        m.finalized_offset <= streaming_step(m, chunk_len, partial).0.finalized_offset,
        streaming_step(m, chunk_len, partial).0.finalized_offset <= total,
{
}

/// The state after a whole run of streaming cycles, applied in order.
pub open spec fn run_streaming(m: StreamingModel, steps: Seq<(int, Seq<char>)>) -> StreamingModel
    decreases steps.len(),
{
    if steps.len() == 0 {
        m
    } else {
        run_streaming(streaming_step(m, steps[0].0, steps[0].1).0, steps.drop_first())
    }
}

/// Over any whole run of the loop, the finalized offset never decreases;
/// and when every cycle's span satisfies the peek bound — it starts at the
/// then-current offset and ends within the `total` samples observed — the
/// offset never exceeds `total`.
pub proof fn lemma_offset_bounded_over_run(
    m: StreamingModel,
    steps: Seq<(int, Seq<char>)>,
    total: int,
)
    requires
        m.finalized_offset <= total,
        forall|i: int|
            0 <= i < steps.len() ==> #[trigger] steps[i].0 >= 0 && run_streaming(
                m,
                steps.take(i),
            ).finalized_offset + steps[i].0 <= total,
    ensures
        m.finalized_offset <= run_streaming(m, steps).finalized_offset,
        run_streaming(m, steps).finalized_offset <= total,
    decreases steps.len(),
{
    if steps.len() > 0 {
        assert(steps.take(0) =~= Seq::<(int, Seq<char>)>::empty());
        let m1 = streaming_step(m, steps[0].0, steps[0].1).0;
        assert(m1.finalized_offset <= total);
        let rest = steps.drop_first();
        assert forall|i: int|
            0 <= i < rest.len() implies #[trigger] rest[i].0 >= 0 && run_streaming(
            m1,
            rest.take(i),
        ).finalized_offset + rest[i].0 <= total by {
            assert(rest[i] == steps[i + 1]);
            assert(steps.take(i + 1).drop_first() =~= rest.take(i));
            assert(steps.take(i + 1)[0] == steps[0]);
            assert(run_streaming(m, steps.take(i + 1)) == run_streaming(m1, rest.take(i)));
        }
        lemma_offset_bounded_over_run(m1, rest, total);
    }
}

/// The stability counter resets to zero on any partial-text change (or an
/// empty partial) and grows only on an exact repeat of the previous
/// partial; a cycle that finalizes its chunk resets the stored counter as
/// part of finalization.
pub proof fn lemma_stable_count_tracks_repeats(m: StreamingModel, chunk_len: int, partial: Seq<
    char,
>)
    ensures
        (partial.len() == 0 || partial != m.prev_partial) && !should_finalize(
            chunk_len,
            next_stable_count(m.stable_count, partial, m.prev_partial),
        ) ==> streaming_step(m, chunk_len, partial).0.stable_count == 0,
        partial.len() > 0 && partial == m.prev_partial && m.stable_count < usize::MAX
            && !should_finalize(chunk_len, m.stable_count + 1) ==> streaming_step(
            m,
            chunk_len,
            partial,
        ).0.stable_count == m.stable_count + 1,
        should_finalize(chunk_len, next_stable_count(m.stable_count, partial, m.prev_partial))
            ==> streaming_step(m, chunk_len, partial).0.stable_count == 0,
{
}

/// The hard cap overrides the stability requirement: any span at or past
/// [`FORCE_FINALIZE_SAMPLES`] is finalized even while the partial text is
/// still changing.
pub proof fn lemma_hard_cap_finalizes(m: StreamingModel, chunk_len: int, partial: Seq<char>)
    requires
        chunk_len >= FORCE_FINALIZE_SAMPLES,
    ensures
        streaming_step(m, chunk_len, partial).0.finalized_offset == m.finalized_offset + chunk_len,
        streaming_step(m, chunk_len, partial).0.finalized_text == joined_display(
            m.finalized_text,
            partial,
        ),
        streaming_step(m, chunk_len, partial).0.stable_count == 0,
{
}

} // verus!
