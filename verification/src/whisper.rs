//! Transcription results: what a speech-recognition answer means for
//! jamming effectiveness.
//!
//! Sending audio to a transcription service is network work done by the
//! surrounding program; how its answer is read — how many words it
//! contains and whether that counts as jammed — is decided here.

use vstd::prelude::*;
use vstd::string::StringSliceAdditionalSpecFns;
use crate::daemon::is_ascii_whitespace;

verus! {

/// The transcription service's raw answer.
pub struct WhisperResponse {
    /// The transcribed text.
    pub text: String,
}

/// A digested transcription result.
pub struct WhisperResult {
    /// The trimmed transcript.
    pub transcript: String,
    /// Number of whitespace-separated words in the transcript.
    pub word_count: usize,
}

impl WhisperResult {
    /// Whether the audio was effectively jammed: at most two words came
    /// through, allowing for one or two hallucinated ones.
    pub fn is_effectively_jammed(&self) -> (r: bool)
        ensures
            r == (self.word_count <= 2),
    {
        self.word_count <= 2
    }
}

/// Number of maximal runs of non-whitespace bytes in the sequence.
pub open spec fn word_count_spec(s: Seq<u8>) -> int
    decreases s.len(),
{
    if s.len() == 0 {
        0
    } else {
        let i = s.len() - 1;
        word_count_spec(s.drop_last()) + if !is_ascii_whitespace(s[i]) && (i == 0
            || is_ascii_whitespace(s[i - 1])) {
            1int
        } else {
            0int
        }
    }
}

/// Counts the words of a transcript: the maximal runs of bytes that are
/// not ASCII whitespace.
pub fn count_words(text: &str) -> (r: usize)
    requires
        text.spec_bytes().len() <= usize::MAX,
    ensures
        r == word_count_spec(text.spec_bytes()),
{
    let bytes = text.as_bytes();
    let len = bytes.len();
    proof {
        assert(bytes@.subrange(0, 0) =~= Seq::<u8>::empty());
    }
    let mut count: usize = 0;
    let mut i: usize = 0;
    while i < len
        invariant
            bytes@ == text.spec_bytes(),
            len == bytes@.len(),
            i <= len,
            count <= i,
            count == word_count_spec(bytes@.subrange(0, i as int)),
        decreases len - i,
    {
        let b = bytes[i];
        let in_word = !(b == 32 || b == 9 || b == 10 || b == 13 || b == 11 || b == 12);
        let starts_word = in_word && (i == 0 || {
            let p = bytes[i - 1];
            p == 32 || p == 9 || p == 10 || p == 13 || p == 11 || p == 12
        });
        proof {
            assert(bytes@.subrange(0, i + 1).drop_last() =~= bytes@.subrange(0, i as int));
        }
        if starts_word {
            count = count + 1;
        }
        i = i + 1;
    }
    proof {
        assert(bytes@.subrange(0, len as int) =~= bytes@);
    }
    count
}

} // verus!
