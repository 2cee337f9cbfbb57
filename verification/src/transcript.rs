//! Transcript assembly: the recognized segments of one audio chunk are
//! concatenated, each followed by a newline, and a transcript is surfaced
//! only when its trimmed text is non-empty.

use vstd::prelude::*;

use crate::text::trim_spaces;

verus! {

/// The transcript for a chunk: every segment in order, each followed by a
/// newline.
pub open spec fn transcript_of(segments: Seq<Seq<char>>) -> Seq<char>
    decreases segments.len(),
{
    if segments.len() == 0 {
        Seq::empty()
    } else {
        transcript_of(segments.drop_last()) + segments.last() + "\n"@
    }
}

/// Joins the recognized segments of one chunk into its transcript.
pub fn assemble_transcript(segments: &Vec<String>) -> (r: String)
    ensures
        r@ == transcript_of(segments@.map_values(|s: String| s@)),
{
    let n = segments.len();
    let mut r = String::new();
    let mut i: usize = 0;
    while i < n
        invariant
            n == segments@.len(),
            i <= n,
            r@ == transcript_of(segments@.take(i as int).map_values(|s: String| s@)),
        decreases n - i,
    {
        r.append(segments[i].as_str());
        r.append("\n");
        proof {
            let prev = segments@.take(i as int).map_values(|s: String| s@);
            let now = segments@.take(i as int + 1).map_values(|s: String| s@);
            assert(now.drop_last() =~= prev);
            assert(now.last() == segments@[i as int]@);
        }
        i += 1;
    }
    proof {
        assert(segments@.take(n as int) =~= segments@);
    }
    r
}

/// What one chunk's transcription surfaces: the trimmed transcript, only if
/// anything non-whitespace was recognized.
pub fn surfaced_transcript(transcript: &str) -> (r: Option<String>)
    ensures
        match r {
            Some(s) => s@ == trim_spaces(transcript@) && s@.len() > 0,
            None => trim_spaces(transcript@).len() == 0,
        },
{
    let trimmed = crate::text::trim_text(transcript);
    if trimmed.as_str().is_empty() {
        None
    } else {
        Some(trimmed)
    }
}

} // verus!
