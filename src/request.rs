use vstd::prelude::*;
use vstd::string::StrSliceExecFns;

use crate::error::SchemaError;

verus! {

/// A sentence boundary: the character offsets `[begin, end)` of one sentence
/// in the full text.
#[derive(Debug, Clone, Copy, PartialEq, Eq, Structural)]
pub struct SentenceOffsets {
    pub begin: usize,
    pub end: usize,
}

/// A text to annotate, its language tag (carried along, never read) and the
/// boundaries of its sentences, in the order in which results are wanted.
#[derive(Debug)]
pub struct TextImagerRequest {
    pub text: String,
    pub language: String,
    pub sentences: Vec<SentenceOffsets>,
}

/// A boundary lies inside a text of `len` characters and is not inverted.
pub open spec fn boundary_fits(b: SentenceOffsets, len: nat) -> bool {
    b.begin <= b.end && b.end <= len
}

/// The characters of `text` that the boundary `b` spans.
pub open spec fn sentence_text(text: Seq<char>, b: SentenceOffsets) -> Seq<char> {
    text.subrange(b.begin as int, b.end as int)
}

impl TextImagerRequest {
    /// Every sentence boundary of the request lies inside its text.
    pub open spec fn boundaries_fit(&self) -> bool {
        forall|i: int|
            0 <= i < self.sentences@.len() ==> boundary_fits(
                #[trigger] self.sentences@[i],
                self.text@.len(),
            )
    }

    /// The index of the first boundary that does not fit the text.
    pub open spec fn first_bad_boundary(&self, index: int) -> bool {
        &&& 0 <= index < self.sentences@.len()
        &&& !boundary_fits(self.sentences@[index], self.text@.len())
        &&& forall|i: int|
            0 <= i < index ==> boundary_fits(#[trigger] self.sentences@[i], self.text@.len())
    }

    /// Each sentence's text paired with its anchor, the offset in the full text
    /// at which it begins, in the order of the boundaries.
    ///
    /// Fails with `InvalidBoundary`, naming the first offending boundary, as
    /// soon as one boundary is inverted or reaches past the text.
    pub fn sentences_with_offsets(&self) -> (r: Result<Vec<(String, usize)>, SchemaError>)
        ensures
            r is Ok <==> self.boundaries_fit(),
            r matches Ok(v) ==> {
                &&& v@.len() == self.sentences@.len()
                &&& forall|i: int|
                    0 <= i < v@.len() ==> {
                        &&& (#[trigger] v@[i]).0@ == sentence_text(self.text@, self.sentences@[i])
                        &&& v@[i].1 == self.sentences@[i].begin
                    }
            },
            r matches Err(e) ==> e matches SchemaError::InvalidBoundary { index } && self.first_bad_boundary(
                index as int,
            ),
    {
        let text = self.text.as_str();
        let len = text.unicode_len();
        let mut out: Vec<(String, usize)> = Vec::new();
        let mut i: usize = 0;
        while i < self.sentences.len()
            invariant
                i <= self.sentences@.len(),
                len == self.text@.len(),
                text@ == self.text@,
                out@.len() == i,
                forall|k: int| 0 <= k < i ==> boundary_fits(#[trigger] self.sentences@[k], len as nat),
                forall|k: int|
                    0 <= k < i ==> {
                        &&& (#[trigger] out@[k]).0@ == sentence_text(self.text@, self.sentences@[k])
                        &&& out@[k].1 == self.sentences@[k].begin
                    },
            decreases self.sentences@.len() - i,
        {
            let b = self.sentences[i];
            if b.begin > b.end || b.end > len {
                return Err(SchemaError::InvalidBoundary { index: i });
            }
            let sentence = String::from_str(text.substring_char(b.begin, b.end));
            out.push((sentence, b.begin));
            i = i + 1;
        }
        Ok(out)
    }

    /// The texts of the sentences and, at the same positions, their anchors.
    ///
    /// Fails exactly as `sentences_with_offsets` does.
    pub fn sentences_and_offsets(&self) -> (r: Result<(Vec<String>, Vec<usize>), SchemaError>)
        ensures
            r is Ok <==> self.boundaries_fit(),
            r matches Ok((texts, anchors)) ==> {
                &&& texts@.len() == self.sentences@.len()
                &&& anchors@.len() == self.sentences@.len()
                &&& forall|i: int|
                    0 <= i < texts@.len() ==> #[trigger] texts@[i]@ == sentence_text(
                        self.text@,
                        self.sentences@[i],
                    )
                &&& forall|i: int|
                    0 <= i < anchors@.len() ==> #[trigger] anchors@[i] == self.sentences@[i].begin
            },
            r matches Err(e) ==> e matches SchemaError::InvalidBoundary { index } && self.first_bad_boundary(
                index as int,
            ),
    {
        let pairs = self.sentences_with_offsets()?;
        let mut texts: Vec<String> = Vec::new();
        let mut anchors: Vec<usize> = Vec::new();
        let mut i: usize = 0;
        while i < pairs.len()
            invariant
                pairs@.len() == self.sentences@.len(),
                i <= pairs@.len(),
                texts@.len() == i,
                anchors@.len() == i,
                forall|k: int|
                    0 <= k < pairs@.len() ==> {
                        &&& (#[trigger] pairs@[k]).0@ == sentence_text(
                            self.text@,
                            self.sentences@[k],
                        )
                        &&& pairs@[k].1 == self.sentences@[k].begin
                    },
                forall|k: int|
                    0 <= k < i ==> #[trigger] texts@[k]@ == sentence_text(
                        self.text@,
                        self.sentences@[k],
                    ),
                forall|k: int| 0 <= k < i ==> #[trigger] anchors@[k] == self.sentences@[k].begin,
            decreases pairs@.len() - i,
        {
            texts.push(pairs[i].0.clone());
            anchors.push(pairs[i].1);
            i = i + 1;
        }
        Ok((texts, anchors))
    }
}

} // verus!
