use vstd::prelude::*;
use vstd::std_specs::convert::IntoSpec;
use vstd::string::StrSliceExecFns;

use crate::error::SchemaError;

verus! {

/// An entity as the recognition model reports it for one sentence: its label,
/// its span `[begin, end)` in the sentence's own character offsets, and the
/// text it matched, which may start with whitespace that the span should not
/// cover.
#[derive(Debug, Clone)]
pub struct RawEntity {
    pub label: String,
    pub begin: usize,
    pub end: usize,
    pub word: String,
}

/// A labelled span of the full text, in character offsets.
#[derive(Debug, Clone, PartialEq, Eq)]
pub struct TextImagerPrediction {
    pub label: String,
    pub begin: usize,
    pub end: usize,
}

/// The characters with Unicode's White_Space property.
pub open spec fn is_white_space(c: char) -> bool {
    let u = c as u32;
    (0x09 <= u <= 0x0d) || u == 0x20 || u == 0x85 || u == 0xa0 || u == 0x1680 || (0x2000 <= u
        <= 0x200a) || u == 0x2028 || u == 0x2029 || u == 0x202f || u == 0x205f || u == 0x3000
}

/// How many whitespace characters `s` starts with.
pub open spec fn leading_white_space(s: Seq<char>) -> nat
    decreases s.len(),
{
    if s.len() > 0 && is_white_space(s[0]) {
        1 + leading_white_space(s.drop_first())
    } else {
        0
    }
}

/// Where the entity's span begins once the whitespace that its matched text
/// starts with is skipped.
pub open spec fn tight_begin(e: RawEntity) -> int {
    e.begin + leading_white_space(e.word@)
}

/// Skipping the entity's leading whitespace leaves its span in order.
pub open spec fn tightens(e: RawEntity) -> bool {
    tight_begin(e) <= e.end
}

/// Relies on `char::is_whitespace`: true exactly for the characters with the
/// White_Space property of the Unicode Character Database.
#[verifier::external_body]
fn char_is_whitespace(c: char) -> (r: bool)
    ensures
        r == is_white_space(c),
{
    c.is_whitespace()
}

proof fn lemma_leading_white_space(s: Seq<char>, n: int)
    requires
        0 <= n <= s.len(),
        forall|k: int| 0 <= k < n ==> is_white_space(#[trigger] s[k]),
        n == s.len() || !is_white_space(s[n]),
    ensures
        leading_white_space(s) == n,
    decreases n,
{
    if n > 0 {
        let t = s.drop_first();
        assert forall|k: int| 0 <= k < n - 1 implies is_white_space(#[trigger] t[k]) by {
            assert(t[k] == s[k + 1]);
        }
        if n - 1 < t.len() {
            assert(t[n - 1] == s[n]);
        }
        lemma_leading_white_space(t, n - 1);
    }
}

/// The number of whitespace characters that `word` starts with.
pub fn count_leading_white_space(word: &str) -> (r: usize)
    ensures
        r == leading_white_space(word@),
{
    let len = word.unicode_len();
    let mut n: usize = 0;
    while n < len && char_is_whitespace(word.get_char(n))
        invariant
            len == word@.len(),
            n <= len,
            forall|k: int| 0 <= k < n ==> is_white_space(#[trigger] word@[k]),
        decreases len - n,
    {
        n = n + 1;
    }
    proof {
        lemma_leading_white_space(word@, n as int);
    }
    n
}

impl TextImagerPrediction {
    /// A prediction with the given label and span.
    pub fn new<T>(label: T, begin: usize, end: usize) -> (r: Self)
        where
            T: Into<String>,
        ensures
            T::obeys_into_spec() ==> r.label == label.into_spec(),
            r.begin == begin,
            r.end == end,
    {
        TextImagerPrediction { label: label.into(), begin, end }
    }

    /// The same prediction moved `offset` characters to the right: a span
    /// local to a sentence becomes a span of the full text when `offset` is
    /// the sentence's anchor.
    pub fn with_offset(self, offset: usize) -> (r: Self)
        requires
            self.begin + offset <= usize::MAX,
            self.end + offset <= usize::MAX,
        ensures
            r.label == self.label,
            r.begin == self.begin + offset,
            r.end == self.end + offset,
    {
        let mut p = self;
        p.begin = p.begin + offset;
        p.end = p.end + offset;
        p
    }

    /// The prediction for a raw model entity, in the sentence's offsets: the
    /// label and the end are kept, and the begin moves past each whitespace
    /// character that the matched text starts with.
    ///
    /// Fails with `OffsetUnitMismatch` exactly when that would move the begin
    /// past the end; `sentence` and `entity` are put in the error to say
    /// where the entity came from.
    pub fn from_entity(e: &RawEntity, sentence: usize, entity: usize) -> (r: Result<
        Self,
        SchemaError,
    >)
        ensures
            r is Ok <==> tightens(*e),
            r matches Ok(p) ==> p.label == e.label && p.begin == tight_begin(*e) && p.end == e.end,
            r matches Err(err) ==> err == (SchemaError::OffsetUnitMismatch { sentence, entity }),
    {
        let skip = count_leading_white_space(e.word.as_str());
        if e.begin > e.end || skip > e.end - e.begin {
            return Err(SchemaError::OffsetUnitMismatch { sentence, entity });
        }
        Ok(TextImagerPrediction { label: e.label.clone(), begin: e.begin + skip, end: e.end })
    }
}

} // verus!
