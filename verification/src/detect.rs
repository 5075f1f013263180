//! The wake-word detection state machine.
//!
//! A streaming recognizer outside this crate turns each aggregated audio
//! chunk into a finalized transcript with word-level timing and confidence.
//! Times are carried as whole milliseconds and confidences as thousandths,
//! so that the decision logic is exact. For each chunk the machine fires a
//! wake event when the transcript contains the whole wake phrase, or when a
//! confident second token follows a recently heard first token closely
//! enough; a staleness timeout bounds how long a half-heard first token can
//! stay pending.

use vstd::prelude::*;

use crate::text::ascii_eq_ci;
use crate::text::contains_seq;
use crate::text::contains_str;
use crate::text::eq_ignore_ascii;
use crate::text::first_token;
use crate::text::first_two_tokens;
use crate::text::lower_of;
use crate::text::second_token;
use crate::text::to_lower;

verus! {

/// Least confidence, in thousandths, at which the first token of the wake
/// phrase is remembered.
pub const HEY_CONFIDENCE_MIN_MILLI: u32 = 700;

/// Least confidence, in thousandths, at which the second token of the wake
/// phrase completes a split match.
pub const DAVID_CONFIDENCE_MIN_MILLI: u32 = 750;

/// Largest gap, in milliseconds, between the end of the first token and the
/// start of the second token of a split match.
pub const MAX_GAP_MS: u64 = 150;

/// With no match for longer than this, in milliseconds, the pending first
/// token is dropped and the recognizer reset.
pub const STALE_TIMEOUT_MS: u64 = 10_000;

/// One recognized word: its text, when it was spoken, and how confident the
/// recognizer is, in thousandths.
pub struct WordResult {
    pub word: String,
    pub start_ms: u64,
    pub end_ms: u64,
    pub confidence_milli: u32,
}

/// What the recognizer finalized for one aggregated chunk: the transcript
/// and the first recognized word, if any.
pub struct ChunkResult {
    pub transcript: String,
    pub first_word: Option<WordResult>,
}

/// What the caller must do after a chunk was processed: deliver a wake
/// event, and reset the recognizer's internal state.
pub struct ChunkAction {
    pub fired: bool,
    pub reset_recognizer: bool,
}

/// Configuration of the detector. The wake phrase is stored lowercased,
/// with its first two tokens; thresholds default to the named constants and
/// may be overridden freely.
pub struct DetectorConfig {
    pub wake_phrase: String,
    pub first_token: String,
    pub second_token: String,
    pub hey_confidence_min_milli: u32,
    pub david_confidence_min_milli: u32,
    pub max_gap_ms: u64,
    pub stale_timeout_ms: u64,
}

impl DetectorConfig {
    /// A configuration for the given wake phrase with the default
    /// thresholds. The phrase is lowercased and split at spaces.
    pub fn new(wake_phrase: &str) -> (r: Self)
        ensures
            r.wake_phrase@ == lower_of(wake_phrase@),
            r.first_token@ == first_token(lower_of(wake_phrase@)),
            r.second_token@ == second_token(lower_of(wake_phrase@)),
            r.hey_confidence_min_milli == HEY_CONFIDENCE_MIN_MILLI,
            r.david_confidence_min_milli == DAVID_CONFIDENCE_MIN_MILLI,
            r.max_gap_ms == MAX_GAP_MS,
            r.stale_timeout_ms == STALE_TIMEOUT_MS,
    {
        let lowered = to_lower(wake_phrase);
        let (first, second) = first_two_tokens(lowered.as_str());
        DetectorConfig {
            wake_phrase: lowered,
            first_token: first,
            second_token: second,
            hey_confidence_min_milli: HEY_CONFIDENCE_MIN_MILLI,
            david_confidence_min_milli: DAVID_CONFIDENCE_MIN_MILLI,
            max_gap_ms: MAX_GAP_MS,
            stale_timeout_ms: STALE_TIMEOUT_MS,
        }
    }
}

/// The detector's memory between chunks: when the first token of the wake
/// phrase last ended, if one is pending, and when the last match or reset
/// happened.
pub struct DetectorState {
    pub last_hey_end_ms: Option<u64>,
    pub last_match_time_ms: u64,
}

/// The transcript is non-empty and contains the lowercased wake phrase.
pub open spec fn phrase_in_transcript(c: DetectorConfig, text: Seq<char>) -> bool {
    &&& text.len() > 0
    &&& contains_seq(lower_of(text), c.wake_phrase@)
}

/// A pending first token is completed by this word: the word starts less
/// than the allowed gap after the pending token ended, is confident enough,
/// and equals the second token of the wake phrase ignoring ASCII case.
pub open spec fn split_completes(c: DetectorConfig, s: DetectorState, w: WordResult) -> bool {
    &&& s.last_hey_end_ms is Some
    &&& w.start_ms < s.last_hey_end_ms.unwrap() + c.max_gap_ms
    &&& w.confidence_milli >= c.david_confidence_min_milli
    &&& ascii_eq_ci(w.word@, c.second_token@)
}

/// The word arms the detector: it equals the first token of the wake phrase
/// ignoring ASCII case and is confident enough.
pub open spec fn arms_detector(c: DetectorConfig, w: WordResult) -> bool {
    &&& ascii_eq_ci(w.word@, c.first_token@)
    &&& w.confidence_milli >= c.hey_confidence_min_milli
}

/// More time than the staleness timeout has passed since the last match or
/// reset.
pub open spec fn is_stale(c: DetectorConfig, s: DetectorState, now_ms: u64) -> bool {
    now_ms > s.last_match_time_ms + c.stale_timeout_ms
}

/// The state cleared after a match or a staleness reset.
pub open spec fn reset_state(now_ms: u64) -> DetectorState {
    DetectorState { last_hey_end_ms: None, last_match_time_ms: now_ms }
}

/// What processing one finalized chunk does: the next state, whether a wake
/// event fires, and whether the recognizer is reset.
///
/// The whole wake phrase in the transcript fires immediately. Otherwise
/// only the first recognized word is consulted: it may complete a pending
/// first token (firing), or arm the detector as a new first token. If
/// nothing fired and the last match is stale, the pending token is dropped
/// and the recognizer reset. An empty transcript skips the word checks but
/// still reaches the staleness check.
pub open spec fn detect_step(
    c: DetectorConfig,
    s: DetectorState,
    r: ChunkResult,
    now_ms: u64,
) -> (DetectorState, bool, bool) {
    if phrase_in_transcript(c, r.transcript@) {
        (reset_state(now_ms), true, true)
    } else if r.transcript@.len() > 0 && r.first_word is Some
        && split_completes(c, s, r.first_word.unwrap()) {
        (reset_state(now_ms), true, true)
    } else {
        let armed = if r.transcript@.len() > 0 && r.first_word is Some
            && arms_detector(c, r.first_word.unwrap()) {
            Some(r.first_word.unwrap().end_ms)
        } else {
            s.last_hey_end_ms
        };
        if is_stale(c, s, now_ms) {
            (reset_state(now_ms), false, true)
        } else {
            (
                DetectorState { last_hey_end_ms: armed, last_match_time_ms: s.last_match_time_ms },
                false,
                false,
            )
        }
    }
}

/// `detect_step` lifted to a chunk whose recognition may have failed: a
/// failed recognition changes nothing and asks for nothing.
pub open spec fn detect_step_opt(
    c: DetectorConfig,
    s: DetectorState,
    r: Option<ChunkResult>,
    now_ms: u64,
) -> (DetectorState, bool, bool) {
    match r {
        Some(res) => detect_step(c, s, res, now_ms),
        None => (s, false, false),
    }
}

impl DetectorState {
    /// The state of a freshly started detector: nothing pending, last match
    /// timed at start.
    pub fn new(now_ms: u64) -> (r: Self)
        ensures
            r.last_hey_end_ms is None,
            r.last_match_time_ms == now_ms,
    {
        DetectorState { last_hey_end_ms: None, last_match_time_ms: now_ms }
    }

    /// Process one aggregated chunk's recognition outcome at time `now_ms`.
    /// `None` stands for a failed recognition: the chunk is skipped and the
    /// state left untouched, so the next chunk is processed as if this one
    /// had not arrived.
    pub fn process_chunk(
        &mut self,
        config: &DetectorConfig,
        recognition: Option<&ChunkResult>,
        now_ms: u64,
    ) -> (action: ChunkAction)
        ensures
            ({
                let step = detect_step_opt(
                    *config,
                    *old(self),
                    (match recognition {
                        Some(r) => Some(*r),
                        None => None::<ChunkResult>,
                    }),
                    now_ms,
                );
                &&& *final(self) == step.0
                &&& action.fired == step.1
                &&& action.reset_recognizer == step.2
            }),
    {
        let r = match recognition {
            None => {
                return ChunkAction { fired: false, reset_recognizer: false };
            },
            Some(r) => r,
        };
        let nonempty = !r.transcript.as_str().is_empty();
        if nonempty {
            let lowered = to_lower(r.transcript.as_str());
            if contains_str(lowered.as_str(), config.wake_phrase.as_str()) {
                self.last_hey_end_ms = None;
                self.last_match_time_ms = now_ms;
                return ChunkAction { fired: true, reset_recognizer: true };
            }
            if let Some(w) = &r.first_word {
                if let Some(hey_end) = self.last_hey_end_ms {
                    let in_gap = (w.start_ms as u128)
                        < (hey_end as u128) + (config.max_gap_ms as u128);
                    if in_gap && w.confidence_milli >= config.david_confidence_min_milli
                        && eq_ignore_ascii(w.word.as_str(), config.second_token.as_str()) {
                        self.last_hey_end_ms = None;
                        self.last_match_time_ms = now_ms;
                        return ChunkAction { fired: true, reset_recognizer: true };
                    }
                }
                if w.confidence_milli >= config.hey_confidence_min_milli
                    && eq_ignore_ascii(w.word.as_str(), config.first_token.as_str()) {
                    self.last_hey_end_ms = Some(w.end_ms);
                }
            }
        }
        if (now_ms as u128) > (self.last_match_time_ms as u128) + (config.stale_timeout_ms as u128) {
            self.last_hey_end_ms = None;
            self.last_match_time_ms = now_ms;
            return ChunkAction { fired: false, reset_recognizer: true };
        }
        ChunkAction { fired: false, reset_recognizer: false }
    }
}

/// A transcript that contains the wake phrase fires a wake event and fully
/// resets the detector, whatever was pending and whatever words came with
/// the chunk.
pub proof fn lemma_full_phrase_fires(
    c: DetectorConfig,
    s: DetectorState,
    r: ChunkResult,
    now_ms: u64,
)
    requires
        phrase_in_transcript(c, r.transcript@),
    ensures
        ({
            let step = detect_step(c, s, r, now_ms);
            &&& step.1
            &&& step.2
            &&& step.0 == reset_state(now_ms)
        }),
{
}

/// A confident second token that starts within the allowed gap after a
/// pending first token fires a wake event and fully resets the detector,
/// even when the transcript does not contain the whole phrase.
pub proof fn lemma_split_word_fires(
    c: DetectorConfig,
    s: DetectorState,
    r: ChunkResult,
    now_ms: u64,
)
    requires
        r.transcript@.len() > 0,
        r.first_word matches Some(w) && split_completes(c, s, w),
    ensures
        ({
            let step = detect_step(c, s, r, now_ms);
            &&& step.1
            &&& step.2
            &&& step.0 == reset_state(now_ms)
        }),
{
}

/// A first token below its confidence threshold never arms the detector,
/// so a later chunk whose first word would complete a split match does not
/// fire on its own.
pub proof fn lemma_low_confidence_hey_does_not_arm(
    c: DetectorConfig,
    s: DetectorState,
    r1: ChunkResult,
    now1_ms: u64,
    r2: ChunkResult,
    now2_ms: u64,
)
    requires
        s.last_hey_end_ms is None,
        !phrase_in_transcript(c, r1.transcript@),
        r1.first_word matches Some(w) ==> w.confidence_milli < c.hey_confidence_min_milli,
        !phrase_in_transcript(c, r2.transcript@),
    ensures
        detect_step(c, s, r1, now1_ms).0.last_hey_end_ms is None,
        !detect_step(c, s, r1, now1_ms).1,
        !detect_step(c, detect_step(c, s, r1, now1_ms).0, r2, now2_ms).1,
{
}

/// With no match for longer than the staleness timeout, a chunk with an
/// empty transcript — no recognizer activity at all — still clears the
/// pending first token, re-times the detector, and resets the recognizer,
/// without firing.
pub proof fn lemma_staleness_resets(
    c: DetectorConfig,
    s: DetectorState,
    r: ChunkResult,
    now_ms: u64,
)
    requires
        now_ms > s.last_match_time_ms + c.stale_timeout_ms,
        r.transcript@.len() == 0,
    ensures
        ({
            let step = detect_step(c, s, r, now_ms);
            &&& !step.1
            &&& step.2
            &&& step.0 == reset_state(now_ms)
        }),
{
}

/// A failed recognition leaves the detector state untouched: the next chunk
/// is processed exactly as if the failure had never happened.
pub proof fn lemma_recognition_error_skips_chunk(
    c: DetectorConfig,
    s: DetectorState,
    next: ChunkResult,
    err_now_ms: u64,
    now_ms: u64,
)
    ensures
        ({
            let after_err = detect_step_opt(c, s, None::<ChunkResult>, err_now_ms).0;
            detect_step(c, after_err, next, now_ms) == detect_step(c, s, next, now_ms)
        }),
        !detect_step_opt(c, s, None::<ChunkResult>, err_now_ms).1,
        !detect_step_opt(c, s, None::<ChunkResult>, err_now_ms).2,
{
}

} // verus!
