//! The transcription adapter: what is handed to the recogniser and how its
//! results are read.
use vstd::prelude::*;
use vstd::string::StringExecFns;
use crate::config::AUTO_LANGUAGE;
use crate::subtitle::TranscriptSegment;
use crate::text::same_text;

verus! {

/// A failure of the recogniser: loading the model, making its state, or
/// running it.
#[derive(Clone, Debug, PartialEq, Eq)]
pub enum TranscriptionError {
    EngineFailure(String),
}

/// The language hint handed to the recogniser: none for `auto`, which asks
/// it to detect the language, else the setting as it is.
pub fn language_hint(language: &str) -> (r: Option<String>)
    ensures
        language@ == AUTO_LANGUAGE@ ==> r is None,
        language@ != AUTO_LANGUAGE@ ==> (r matches Some(h) && h@ == language@),
{
    if same_text(language, AUTO_LANGUAGE) {
        None
    } else {
        Some(String::from_str(language))
    }
}

/// Milliseconds of a recogniser time stamp, which counts centiseconds.
/// Negative stamps count as zero; stamps past the range saturate.
pub open spec fn centis_to_ms(t: int) -> nat {
    if t <= 0 {
        0
    } else if t * 10 > u64::MAX {
        u64::MAX as nat
    } else {
        (t * 10) as nat
    }
}

/// Converts a recogniser time stamp (centiseconds) to milliseconds.
pub fn centis_to_millis(t: i64) -> (r: u64)
    ensures
        r == centis_to_ms(t as int),
{
    if t <= 0 {
        0
    } else {
        let u = t as u64;
        if u > u64::MAX / 10 {
            u64::MAX
        } else {
            u * 10
        }
    }
}

/// The segment for a span that the recogniser reports from `t0` to `t1`
/// centiseconds, holding `text`.
pub fn segment_from_engine(t0: i64, t1: i64, text: String) -> (r: TranscriptSegment)
    ensures
        r.start_ms == centis_to_ms(t0 as int),
        r.end_ms == centis_to_ms(t1 as int),
        r.text == text,
{
    TranscriptSegment { start_ms: centis_to_millis(t0), end_ms: centis_to_millis(t1), text }
}

/// A percentage reported by the recogniser, held within 0 to 100.
pub open spec fn clamp_percent(p: int) -> nat {
    if p < 0 {
        0
    } else if p > 100 {
        100
    } else {
        p as nat
    }
}

/// Holds a percentage reported by the recogniser within 0 to 100.
pub fn engine_percent(p: i32) -> (r: u32)
    ensures
        r == clamp_percent(p as int),
{
    if p < 0 {
        0
    } else if p > 100 {
        100
    } else {
        p as u32
    }
}

} // verus!
