//! The transcription results that the speech server sends.

use vstd::prelude::*;

verus! {

/// One segment of a result: its text, if sent, and its words.
#[derive(Debug, Clone)]
pub struct Segment {
    pub text: Option<String>,
    pub words: Vec<String>,
}

/// A live (`realtime`) or final (`result`) transcription result.
#[derive(Debug, Clone)]
pub struct ModelResult {
    pub kind: String,
    pub text: String,
    pub translated_text: Option<String>,
    pub source_text: Option<String>,
    pub segments: Vec<Segment>,
}

/// The text to show or type: the transcript, or, when it is empty, the
/// translated text, else the source text, else nothing.
pub open spec fn fallback_text_spec(r: ModelResult) -> Seq<char> {
    if r.text@.len() != 0 {
        r.text@
    } else {
        match r.translated_text {
            Some(t) => t@,
            None => match r.source_text {
                Some(s) => s@,
                None => Seq::empty(),
            },
        }
    }
}

/// Some segment of the result carries words.
pub open spec fn has_word_segments_spec(r: ModelResult) -> bool {
    exists|i: int| 0 <= i < r.segments@.len() && r.segments@[i].words@.len() > 0
}

impl ModelResult {
    /// The text to show or type (see `fallback_text_spec`).
    pub fn fallback_text(&self) -> (r: &str)
        ensures
            r@ == fallback_text_spec(*self),
    {
        if self.text.as_str().unicode_len() != 0 {
            self.text.as_str()
        } else {
            match &self.translated_text {
                Some(t) => t.as_str(),
                None => match &self.source_text {
                    Some(s) => s.as_str(),
                    None => {
                        proof {
                            reveal_strlit("");
                        }
                        ""
                    },
                },
            }
        }
    }

    /// Whether some segment carries words, so that the result can be shown
    /// word by word.
    pub fn has_word_segments(&self) -> (r: bool)
        ensures
            r == has_word_segments_spec(*self),
    {
        let len = self.segments.len();
        let mut i: usize = 0;
        while i < len
            invariant
                len == self.segments@.len(),
                i <= len,
                forall|j: int| 0 <= j < i ==> self.segments@[j].words@.len() == 0,
            decreases len - i,
        {
            if self.segments[i].words.len() != 0 {
                return true;
            }
            i = i + 1;
        }
        false
    }
}

} // verus!
