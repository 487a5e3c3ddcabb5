use duui_ner::{
    RawEntity, SchemaError, SentenceOffsets, TextImagerDocumentation, TextImagerPrediction,
    TextImagerRequest, TextImagerResponse,
};

fn request(text: &str, bounds: &[(usize, usize)]) -> TextImagerRequest {
    TextImagerRequest {
        text: text.to_string(),
        language: "en".to_string(),
        sentences: bounds
            .iter()
            .map(|&(begin, end)| SentenceOffsets { begin, end })
            .collect(),
    }
}

fn raw(label: &str, begin: usize, end: usize, word: &str) -> RawEntity {
    RawEntity {
        label: label.to_string(),
        begin,
        end,
        word: word.to_string(),
    }
}

#[test]
fn decomposes_by_character_not_byte() {
    let req = request("héllo world", &[(0, 5), (6, 11)]);
    let (texts, anchors) = req.sentences_and_offsets().unwrap();
    assert_eq!(texts, vec!["héllo".to_string(), "world".to_string()]);
    assert_eq!(anchors, vec![0, 6]);
}

#[test]
fn decomposes_after_multibyte_prefix() {
    let req = request("Grüße aus Köln. Hallo Welt", &[(16, 26), (0, 15)]);
    let pairs = req.sentences_with_offsets().unwrap();
    assert_eq!(
        pairs,
        vec![
            ("Hallo Welt".to_string(), 16),
            ("Grüße aus Köln.".to_string(), 0)
        ]
    );
}

#[test]
fn leading_space_moves_begin_by_one_character() {
    let p = TextImagerPrediction::from_entity(&raw("LOC", 4, 10, " Paris"), 0, 0).unwrap();
    assert_eq!(p, TextImagerPrediction::new("LOC", 5, 10));
}

#[test]
fn word_without_whitespace_keeps_its_span() {
    let p = TextImagerPrediction::from_entity(&raw("PER", 3, 8, "Alice"), 0, 0).unwrap();
    assert_eq!(p, TextImagerPrediction::new("PER", 3, 8));
}

#[test]
fn multibyte_whitespace_counts_as_one_character() {
    // U+3000 is three bytes long but one character.
    let p = TextImagerPrediction::from_entity(&raw("LOC", 2, 9, "\u{3000}\u{3000}Tokyo"), 0, 0)
        .unwrap();
    assert_eq!(p, TextImagerPrediction::new("LOC", 4, 9));
}

#[test]
fn whitespace_past_the_end_is_a_mismatch() {
    let r = TextImagerPrediction::from_entity(&raw("ORG", 4, 5, "   X"), 2, 7);
    assert_eq!(
        r,
        Err(SchemaError::OffsetUnitMismatch {
            sentence: 2,
            entity: 7
        })
    );
}

#[test]
fn anchor_is_added_to_both_ends() {
    let p = TextImagerPrediction::new("MISC", 2, 7).with_offset(10);
    assert_eq!(p, TextImagerPrediction::new("MISC", 12, 17));
}

#[test]
fn predictions_follow_sentence_then_model_order() {
    let results = vec![
        vec![raw("A", 0, 1, "a"), raw("B", 2, 3, "b")],
        vec![raw("C", 0, 1, "c"), raw("D", 4, 6, " dd")],
        vec![raw("E", 1, 2, "e"), raw("F", 0, 1, "f")],
    ];
    let anchors = vec![0, 10, 20];
    let resp = TextImagerResponse::reconcile(&results, &anchors, None).unwrap();
    assert_eq!(
        resp.predictions,
        vec![
            TextImagerPrediction::new("A", 0, 1),
            TextImagerPrediction::new("B", 2, 3),
            TextImagerPrediction::new("C", 10, 11),
            TextImagerPrediction::new("D", 15, 16),
            TextImagerPrediction::new("E", 21, 22),
            TextImagerPrediction::new("F", 20, 21),
        ]
    );
    assert_eq!(resp.meta, None);
}

#[test]
fn plain_ascii_words_keep_raw_offsets_plus_anchor() {
    let req = request("Bob met Ann. Then Eve came.", &[(0, 12), (13, 27)]);
    let (texts, anchors) = req.sentences_and_offsets().unwrap();
    assert_eq!(texts[1], "Then Eve came.");
    let results = vec![
        vec![raw("PER", 0, 3, "Bob"), raw("PER", 8, 11, "Ann")],
        vec![raw("PER", 5, 8, "Eve")],
    ];
    let resp = TextImagerResponse::reconcile(&results, &anchors, None).unwrap();
    assert_eq!(
        resp.predictions,
        vec![
            TextImagerPrediction::new("PER", 0, 3),
            TextImagerPrediction::new("PER", 8, 11),
            TextImagerPrediction::new("PER", 18, 21),
        ]
    );
    assert_eq!(&req.text[18..21], "Eve");
}

#[test]
fn inverted_boundary_fails_the_whole_request() {
    let req = request("hello world", &[(0, 5), (5, 3), (6, 11)]);
    assert_eq!(
        req.sentences_and_offsets(),
        Err(SchemaError::InvalidBoundary { index: 1 })
    );
    assert_eq!(
        req.sentences_with_offsets(),
        Err(SchemaError::InvalidBoundary { index: 1 })
    );
}

#[test]
fn boundary_past_the_text_fails() {
    // eleven characters, twelve bytes
    let req = request("héllo world", &[(6, 12)]);
    assert_eq!(
        req.sentences_and_offsets(),
        Err(SchemaError::InvalidBoundary { index: 0 })
    );
}

#[test]
fn empty_sentence_list_gives_empty_response() {
    let req = request("some text", &[]);
    let (texts, anchors) = req.sentences_and_offsets().unwrap();
    assert!(texts.is_empty());
    assert!(anchors.is_empty());
    let results: Vec<Vec<RawEntity>> = vec![];
    let resp = TextImagerResponse::reconcile(&results, &anchors, None).unwrap();
    assert!(resp.predictions.is_empty());
}

#[test]
fn mismatch_anywhere_yields_no_predictions() {
    let results = vec![
        vec![raw("A", 0, 1, "a")],
        vec![raw("B", 0, 5, "b"), raw("C", 3, 4, "  c")],
    ];
    let r = TextImagerResponse::reconcile(&results, &vec![0, 4], None);
    assert_eq!(
        r,
        Err(SchemaError::OffsetUnitMismatch {
            sentence: 1,
            entity: 1
        })
    );
}

#[test]
fn metadata_is_passed_through() {
    let mut meta = std::collections::HashMap::new();
    meta.insert("duration".to_string(), "12ms".to_string());
    let resp = TextImagerResponse::reconcile(&vec![vec![]], &vec![3], Some(meta.clone())).unwrap();
    assert_eq!(resp, TextImagerResponse::new(vec![], Some(meta)));
}

#[test]
fn default_response_is_empty() {
    let resp = TextImagerResponse::default();
    assert!(resp.predictions.is_empty());
    assert!(resp.meta.is_none());
}

#[test]
fn documentation_names_the_rust_version() {
    let doc = TextImagerDocumentation::new("ner".to_string(), "0.1.0".to_string(), "1.80");
    assert_eq!(doc.annotator_name, "ner");
    assert_eq!(doc.version, "0.1.0");
    assert_eq!(doc.implementation_lang.as_deref(), Some("Rust 1.80"));
    assert!(doc.capability.supported_languages.is_empty());
    assert!(doc.capability.reproducible);
    assert!(doc.meta.is_none() && doc.parameters.is_none());
    assert!(doc.docker_container_id.is_none() && doc.implementation_specific.is_none());
}
