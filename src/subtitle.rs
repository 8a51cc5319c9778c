//! The subtitle formatter: timed segments to an SRT document.
use vstd::prelude::*;
use vstd::string::StringExecFns;
use crate::text::{
    append_decimal, append_padded2, append_padded3, decimal, padded2, padded3, trim_text, trimmed,
};

verus! {

/// One timed span of recognised speech. Times are in milliseconds from the
/// start of the audio.
pub struct TranscriptSegment {
    pub start_ms: u64,
    pub end_ms: u64,
    pub text: String,
}

/// The SRT time stamp `HH:MM:SS,mmm` of an instant given in milliseconds.
/// Each field is truncated, never rounded; the hours have no upper bound.
pub open spec fn timestamp_text(ms: nat) -> Seq<char> {
    padded2(ms / 3_600_000) + seq![':'] + padded2(ms % 3_600_000 / 60_000) + seq![':']
        + padded2(ms % 60_000 / 1000) + seq![','] + padded3(ms % 1000)
}

/// Formats an instant, given in milliseconds, as an SRT time stamp.
pub fn format_timestamp(ms: u64) -> (r: String)
    ensures
        r@ == timestamp_text(ms as nat),
{
    let mut out = String::new();
    append_padded2(&mut out, ms / 3_600_000);
    proof { reveal_strlit(":"); }
    out.append(":");
    append_padded2(&mut out, ms % 3_600_000 / 60_000);
    out.append(":");
    append_padded2(&mut out, ms % 60_000 / 1000);
    proof { reveal_strlit(","); }
    out.append(",");
    append_padded3(&mut out, ms % 1000);
    proof {
        assert(out@ =~= timestamp_text(ms as nat));
    }
    out
}

/// The cue that stands at position `k` (counted from 1) of a document:
/// its number, its time range, its trimmed text and one blank line.
pub open spec fn cue_text(k: nat, seg: TranscriptSegment) -> Seq<char> {
    decimal(k) + seq!['\n'] + timestamp_text(seg.start_ms as nat) + seq![' ', '-', '-', '>', ' ']
        + timestamp_text(seg.end_ms as nat) + seq!['\n'] + trimmed(seg.text@) + seq!['\n', '\n']
}

/// The SRT document of `segs`: their cues, numbered 1, 2, 3, ... by position.
pub open spec fn srt_text(segs: Seq<TranscriptSegment>) -> Seq<char>
    decreases segs.len(),
{
    if segs.len() == 0 {
        Seq::empty()
    } else {
        srt_text(segs.drop_last()) + cue_text(segs.len(), segs.last())
    }
}

/// The cues of the document of `segs`, one for each segment, in order.
pub open spec fn cue_blocks(segs: Seq<TranscriptSegment>) -> Seq<Seq<char>> {
    Seq::new(segs.len(), |i: int| cue_text((i + 1) as nat, segs[i]))
}

/// Appends the cue numbered `k` for `seg` to `out`.
pub fn append_cue(out: &mut String, k: u64, seg: &TranscriptSegment)
    ensures
        final(out)@ == old(out)@ + cue_text(k as nat, *seg),
{
    append_decimal(out, k);
    proof { reveal_strlit("\n"); }
    out.append("\n");
    let start = format_timestamp(seg.start_ms);
    out.append(start.as_str());
    proof { reveal_strlit(" --> "); }
    out.append(" --> ");
    let end = format_timestamp(seg.end_ms);
    out.append(end.as_str());
    out.append("\n");
    let text = trim_text(seg.text.as_str());
    out.append(text.as_str());
    proof { reveal_strlit("\n\n"); }
    out.append("\n\n");
    proof {
        assert(final(out)@ =~= old(out)@ + cue_text(k as nat, *seg));
    }
}

/// Formats `segments` as an SRT document. The cues are numbered by their
/// position, from 1, whatever the segments hold.
pub fn format_srt(segments: &Vec<TranscriptSegment>) -> (r: String)
    ensures
        r@ == srt_text(segments@),
{
    let mut out = String::new();
    let mut i: usize = 0;
    while i < segments.len()
        invariant
            i <= segments@.len(),
            out@ == srt_text(segments@.subrange(0, i as int)),
        decreases segments@.len() - i,
    {
        append_cue(&mut out, (i + 1) as u64, &segments[i]);
        proof {
            let next = segments@.subrange(0, i + 1);
            assert(next.drop_last() =~= segments@.subrange(0, i as int));
            assert(next.last() == segments@[i as int]);
        }
        i = i + 1;
    }
    proof {
        assert(segments@.subrange(0, segments@.len() as int) =~= segments@);
    }
    out
}

/// A document of N segments is exactly N cues, in the order of the segments:
/// the cue at position k (from 1) starts with the number k on a line of its
/// own and ends with one blank line.
pub proof fn lemma_srt_cues(segs: Seq<TranscriptSegment>)
    ensures
        srt_text(segs) == cue_blocks(segs).flatten(),
        cue_blocks(segs).len() == segs.len(),
        forall|i: int|
            0 <= i < segs.len() ==> {
                let c = #[trigger] cue_blocks(segs)[i];
                &&& c.subrange(0, decimal((i + 1) as nat).len() + 1 as int) == decimal((i + 1) as nat)
                    + seq!['\n']
                &&& c.subrange(c.len() - 2, c.len() as int) == seq!['\n', '\n']
            },
    decreases segs.len(),
{
    cue_blocks(segs).lemma_flatten_and_flatten_alt_are_equivalent();
    lemma_srt_flatten_alt(segs);
    assert forall|i: int| 0 <= i < segs.len() implies {
        let c = #[trigger] cue_blocks(segs)[i];
        &&& c.subrange(0, decimal((i + 1) as nat).len() + 1 as int) == decimal((i + 1) as nat)
            + seq!['\n']
        &&& c.subrange(c.len() - 2, c.len() as int) == seq!['\n', '\n']
    } by {
        let c = cue_blocks(segs)[i];
        let k = decimal((i + 1) as nat);
        assert(c.subrange(0, k.len() + 1 as int) =~= k + seq!['\n']);
        assert(c.subrange(c.len() - 2, c.len() as int) =~= seq!['\n', '\n']);
    }
}

proof fn lemma_srt_flatten_alt(segs: Seq<TranscriptSegment>)
    ensures
        srt_text(segs) == cue_blocks(segs).flatten_alt(),
    decreases segs.len(),
{
    if segs.len() > 0 {
        lemma_srt_flatten_alt(segs.drop_last());
        assert(cue_blocks(segs).drop_last() =~= cue_blocks(segs.drop_last()));
    } else {
        assert(cue_blocks(segs) =~= Seq::<Seq<char>>::empty());
    }
}

} // verus!
