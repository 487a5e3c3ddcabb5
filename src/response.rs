use std::collections::HashMap;

use vstd::prelude::*;

use crate::error::SchemaError;
use crate::prediction::{
    leading_white_space, tight_begin, tightens, RawEntity, TextImagerPrediction,
};
use crate::request::{boundary_fits, TextImagerRequest};

verus! {

/// The predictions for a request, in sentence order and, within a sentence,
/// in the order the model gave them, with optional free-form metadata.
#[derive(Debug, PartialEq)]
pub struct TextImagerResponse {
    pub predictions: Vec<TextImagerPrediction>,
    pub meta: Option<HashMap<String, String>>,
}

/// The prediction for a raw entity of the sentence anchored at `anchor`, in
/// full-text offsets.
pub open spec fn placed(e: RawEntity, anchor: usize) -> TextImagerPrediction {
    TextImagerPrediction {
        label: e.label,
        begin: (tight_begin(e) + anchor) as usize,
        end: (e.end + anchor) as usize,
    }
}

/// The predictions for the raw entities of one sentence, in their order.
pub open spec fn sentence_predictions(es: Seq<RawEntity>, anchor: usize) -> Seq<
    TextImagerPrediction,
> {
    es.map_values(|e: RawEntity| placed(e, anchor))
}

/// The predictions for the raw entities of each sentence, sentence after
/// sentence, where sentence `i` is anchored at `anchors[i]`.
pub open spec fn reconciled(results: Seq<Vec<RawEntity>>, anchors: Seq<usize>) -> Seq<
    TextImagerPrediction,
>
    decreases results.len(),
{
    if results.len() == 0 {
        seq![]
    } else {
        reconciled(results.drop_last(), anchors) + sentence_predictions(
            results.last()@,
            anchors[results.len() - 1],
        )
    }
}

/// How many raw entities the sentences hold together.
pub open spec fn entity_count(results: Seq<Vec<RawEntity>>) -> nat
    decreases results.len(),
{
    if results.len() == 0 {
        0
    } else {
        entity_count(results.drop_last()) + results.last()@.len()
    }
}

/// How many raw entities the sentences before sentence `i` hold.
pub open spec fn entities_before(results: Seq<Vec<RawEntity>>, i: int) -> nat {
    entity_count(results.subrange(0, i))
}

/// Every raw entity keeps its span in order once its leading whitespace is
/// skipped.
pub open spec fn all_tighten(results: Seq<Vec<RawEntity>>) -> bool {
    forall|i: int, j: int|
        0 <= i < results.len() && 0 <= j < results[i]@.len() ==> tightens(
            #[trigger] results[i]@[j],
        )
}

/// Entity `j` of sentence `i` is the first, in sentence order and then model
/// order, whose span would be inverted by skipping its leading whitespace.
pub open spec fn first_loose(results: Seq<Vec<RawEntity>>, i: int, j: int) -> bool {
    &&& 0 <= i < results.len()
    &&& 0 <= j < results[i]@.len()
    &&& !tightens(results[i]@[j])
    &&& forall|k: int| 0 <= k < j ==> tightens(#[trigger] results[i]@[k])
    &&& forall|s: int, k: int|
        0 <= s < i && 0 <= k < results[s]@.len() ==> tightens(#[trigger] results[s]@[k])
}

/// Each raw entity's end, moved by its sentence's anchor, fits in a `usize`.
pub open spec fn anchored_ends_fit(results: Seq<Vec<RawEntity>>, anchors: Seq<usize>) -> bool {
    forall|i: int, j: int|
        0 <= i < results.len() && 0 <= j < results[i]@.len() ==> #[trigger] results[i]@[j].end
            + anchors[i] <= usize::MAX
}

proof fn lemma_reconciled_prefix(results: Seq<Vec<RawEntity>>, anchors: Seq<usize>, i: int)
    requires
        0 <= i < results.len(),
    ensures
        reconciled(results.subrange(0, i + 1), anchors) == reconciled(results.subrange(0, i), anchors)
            + sentence_predictions(results[i]@, anchors[i]),
{
    let p = results.subrange(0, i + 1);
    assert(p.drop_last() =~= results.subrange(0, i));
    assert(p.last() == results[i]);
}

proof fn lemma_reconciled_len(results: Seq<Vec<RawEntity>>, anchors: Seq<usize>)
    ensures
        reconciled(results, anchors).len() == entity_count(results),
    decreases results.len(),
{
    if results.len() > 0 {
        lemma_reconciled_len(results.drop_last(), anchors);
    }
}

/// Predictions keep the order of their sentences and, within a sentence, the
/// order of the model: entity `j` of sentence `i` becomes the prediction that
/// follows all those of the earlier sentences and the first `j` of its own.
pub proof fn lemma_reconciled_order(
    results: Seq<Vec<RawEntity>>,
    anchors: Seq<usize>,
    i: int,
    j: int,
)
    requires
        results.len() <= anchors.len(),
        0 <= i < results.len(),
        0 <= j < results[i]@.len(),
    ensures
        reconciled(results, anchors).len() == entity_count(results),
        entities_before(results, i) + j < entity_count(results),
        reconciled(results, anchors)[entities_before(results, i) + j] == placed(
            results[i]@[j],
            anchors[i],
        ),
    decreases results.len(),
{
    let n = results.len() - 1;
    let front = results.drop_last();
    lemma_reconciled_len(results, anchors);
    lemma_reconciled_len(front, anchors);
    if i == n {
        assert(results.subrange(0, i) =~= front);
    } else {
        assert(results.subrange(0, i) =~= front.subrange(0, i));
        lemma_reconciled_order(front, anchors, i, j);
    }
}

/// A model entity whose matched text starts with no whitespace keeps its span:
/// after decomposition and reconciliation its prediction spans exactly its
/// raw sentence-local offsets moved by the begin of its sentence's boundary.
pub proof fn lemma_plain_words_keep_raw_offsets(
    request: TextImagerRequest,
    results: Seq<Vec<RawEntity>>,
    anchors: Seq<usize>,
    i: int,
    j: int,
)
    requires
        request.boundaries_fit(),
        anchors.len() == request.sentences@.len(),
        forall|k: int| 0 <= k < anchors.len() ==> #[trigger] anchors[k] == request.sentences@[k].begin,
        results.len() == anchors.len(),
        anchored_ends_fit(results, anchors),
        0 <= i < results.len(),
        0 <= j < results[i]@.len(),
        leading_white_space(results[i]@[j].word@) == 0,
        results[i]@[j].begin <= results[i]@[j].end,
    ensures
        ({
            let p = reconciled(results, anchors)[entities_before(results, i) + j];
            &&& p.label == results[i]@[j].label
            &&& p.begin == results[i]@[j].begin + request.sentences@[i].begin
            &&& p.end == results[i]@[j].end + request.sentences@[i].begin
        }),
{
    lemma_reconciled_order(results, anchors, i, j);
    let e = results[i]@[j];
    assert(e.end + anchors[i] <= usize::MAX);
}

/// A prediction stays inside the sentence it came from, and so inside the
/// text: when the model's span for an entity ends within its sentence and the
/// whitespace skip keeps it in order, the prediction lies between the begin
/// and the end of the sentence's boundary.
pub proof fn lemma_prediction_within_sentence(
    request: TextImagerRequest,
    results: Seq<Vec<RawEntity>>,
    anchors: Seq<usize>,
    i: int,
    j: int,
)
    requires
        request.boundaries_fit(),
        anchors.len() == request.sentences@.len(),
        forall|k: int| 0 <= k < anchors.len() ==> #[trigger] anchors[k] == request.sentences@[k].begin,
        results.len() == anchors.len(),
        0 <= i < results.len(),
        0 <= j < results[i]@.len(),
        tightens(results[i]@[j]),
        results[i]@[j].end <= request.sentences@[i].end - request.sentences@[i].begin,
    ensures
        ({
            let p = reconciled(results, anchors)[entities_before(results, i) + j];
            &&& request.sentences@[i].begin <= p.begin <= p.end <= request.sentences@[i].end
            &&& p.end <= request.text@.len()
        }),
{
    lemma_reconciled_order(results, anchors, i, j);
    assert(boundary_fits(request.sentences@[i], request.text@.len()));
}

impl TextImagerResponse {
    /// A response that holds exactly the given predictions and metadata.
    pub fn new(predictions: Vec<TextImagerPrediction>, meta: Option<HashMap<String, String>>) -> (r:
        Self)
        ensures
            r.predictions == predictions,
            r.meta == meta,
    {
        TextImagerResponse { predictions, meta }
    }

    /// The response for a request whose sentence `i` is anchored at
    /// `anchors[i]` and for which the model found `results[i]`: each entity's
    /// leading whitespace is skipped, its span is moved by its sentence's
    /// anchor, and the predictions follow sentence order, then model order.
    /// `meta` is passed through.
    ///
    /// Fails with `OffsetUnitMismatch` for the first entity whose span the
    /// whitespace would invert, and then no prediction at all is returned.
    pub fn reconcile(
        results: &Vec<Vec<RawEntity>>,
        anchors: &Vec<usize>,
        meta: Option<HashMap<String, String>>,
    ) -> (r: Result<Self, SchemaError>)
        requires
            results@.len() == anchors@.len(),
            anchored_ends_fit(results@, anchors@),
        ensures
            r is Ok <==> all_tighten(results@),
            r matches Ok(resp) ==> resp.predictions@ == reconciled(results@, anchors@)
                && resp.meta == meta,
            r matches Err(e) ==> e matches SchemaError::OffsetUnitMismatch { sentence, entity }
                && first_loose(results@, sentence as int, entity as int),
    {
        let mut out: Vec<TextImagerPrediction> = Vec::new();
        let mut i: usize = 0;
        while i < results.len()
            invariant
                i <= results@.len(),
                results@.len() == anchors@.len(),
                anchored_ends_fit(results@, anchors@),
                out@ == reconciled(results@.subrange(0, i as int), anchors@),
                forall|s: int, k: int|
                    0 <= s < i && 0 <= k < results@[s]@.len() ==> tightens(
                        #[trigger] results@[s]@[k],
                    ),
            decreases results@.len() - i,
        {
            let sentence = &results[i];
            let anchor = anchors[i];
            let mut j: usize = 0;
            while j < sentence.len()
                invariant
                    i < results@.len(),
                    results@.len() == anchors@.len(),
                    anchored_ends_fit(results@, anchors@),
                    *sentence == results@[i as int],
                    anchor == anchors@[i as int],
                    j <= sentence@.len(),
                    out@ == reconciled(results@.subrange(0, i as int), anchors@)
                        + sentence_predictions(sentence@.subrange(0, j as int), anchor),
                    forall|s: int, k: int|
                        0 <= s < i && 0 <= k < results@[s]@.len() ==> tightens(
                            #[trigger] results@[s]@[k],
                        ),
                    forall|k: int| 0 <= k < j ==> tightens(#[trigger] sentence@[k]),
                decreases sentence@.len() - j,
            {
                let e = &sentence[j];
                let p = match TextImagerPrediction::from_entity(e, i, j) {
                    Ok(p) => p,
                    Err(err) => {
                        return Err(err);
                    },
                };
                assert(e.end + anchor <= usize::MAX) by {
                    assert(results@[i as int]@[j as int] == *e);
                }
                let p = p.with_offset(anchor);
                proof {
                    let before = reconciled(results@.subrange(0, i as int), anchors@);
                    assert(sentence@.subrange(0, j + 1) =~= sentence@.subrange(0, j as int).push(*e));
                    assert(sentence_predictions(sentence@.subrange(0, j + 1), anchor) =~=
                        sentence_predictions(sentence@.subrange(0, j as int), anchor).push(p));
                    assert(before + sentence_predictions(sentence@.subrange(0, j + 1), anchor) =~=
                        out@.push(p));
                }
                out.push(p);
                j = j + 1;
            }
            proof {
                assert(sentence@.subrange(0, sentence@.len() as int) =~= sentence@);
                lemma_reconciled_prefix(results@, anchors@, i as int);
            }
            i = i + 1;
        }
        assert(results@.subrange(0, results@.len() as int) =~= results@);
        Ok(TextImagerResponse::new(out, meta))
    }
}

impl Default for TextImagerResponse {
    /// A response with no predictions and no metadata.
    fn default() -> (r: Self)
        ensures
            r.predictions@.len() == 0,
            r.meta is None,
    {
        TextImagerResponse { predictions: Vec::new(), meta: None }
    }
}

} // verus!
