use indexsync::chunker::chunk_text;
use indexsync::chunker::MAX_CHUNK_CHARS;
use indexsync::router::embed_step;
use indexsync::router::plan_chunks;
use indexsync::router::role_prefix;
use indexsync::router::DetectedLanguage;
use indexsync::router::EmbedStep;
use indexsync::router::EmbeddingError;
use indexsync::router::EmbeddingRouter;
use indexsync::router::ModelKind;
use indexsync::router::ModelState;

#[test]
fn empty_batch_returns_empty_without_model() {
    let chunks = plan_chunks(&Vec::new(), false, "passage");
    assert!(chunks.is_empty());
    // The decision on zero chunks never asks for the model, so an
    // uninitialized model is never constructed.
    assert_eq!(embed_step(&ModelState::Uninitialized, 0), EmbedStep::ReturnEmpty);
    assert_eq!(embed_step(&ModelState::Ready, 0), EmbedStep::ReturnEmpty);

    let query_chunks = plan_chunks(&Vec::new(), true, "query");
    assert!(query_chunks.is_empty());
}

#[test]
fn whitespace_only_passage_returns_empty() {
    let texts = vec!["   \t\n".to_string()];
    let chunks = plan_chunks(&texts, false, "passage");
    assert!(chunks.is_empty());
}

#[test]
fn passage_texts_are_chunked_with_role_marker() {
    let texts = vec!["hello world".to_string(), "  ".to_string(), "second".to_string()];
    let chunks = plan_chunks(&texts, false, "passage");
    assert_eq!(chunks, vec!["passage: hello world".to_string(), "passage: second".to_string()]);
}

#[test]
fn query_texts_are_prefixed_not_chunked() {
    let texts = vec!["what is this".to_string()];
    let chunks = plan_chunks(&texts, true, role_prefix(true));
    assert_eq!(chunks, vec!["query: what is this".to_string()]);
}

#[test]
fn long_passage_splits_into_bounded_chunks() {
    let long = "a".repeat(MAX_CHUNK_CHARS + 88);
    let chunks = chunk_text(&long, "passage: ");
    assert_eq!(chunks.len(), 2);
    assert_eq!(chunks[0], format!("passage: {}", "a".repeat(MAX_CHUNK_CHARS)));
    assert_eq!(chunks[1], format!("passage: {}", "a".repeat(88)));
}

#[test]
fn chunks_concatenate_back_to_the_text() {
    let text: String =
        (0..70).map(|i| format!("word{} ", i)).collect::<Vec<_>>().join("").repeat(2);
    let chunks = chunk_text(&text, "passage: ");
    let mut rebuilt = String::new();
    for c in &chunks {
        let piece = c.strip_prefix("passage: ").expect("role marker on every chunk");
        assert!(piece.chars().count() <= MAX_CHUNK_CHARS);
        rebuilt.push_str(piece);
    }
    assert_eq!(rebuilt, text);
}

#[test]
fn model_failure_is_permanent_and_surfaces_as_init_error() {
    let mut router = EmbeddingRouter::new(true);
    let kind = router.select_model(DetectedLanguage::Amharic);
    assert_eq!(kind, ModelKind::Multilingual);
    assert_eq!(embed_step(router.model_state(kind), 3), EmbedStep::InitializeFirst);

    router.note_init_failed(kind, "model file missing".to_string());
    // Every later call with work to do reports an initialization error.
    assert_eq!(embed_step(router.model_state(kind), 3), EmbedStep::FailInitialization);
    assert_eq!(embed_step(router.model_state(kind), 1), EmbedStep::FailInitialization);
    // An empty batch still returns empty rather than erring.
    assert_eq!(embed_step(router.model_state(kind), 0), EmbedStep::ReturnEmpty);
}

#[test]
fn ready_model_is_invoked() {
    let mut router = EmbeddingRouter::new(true);
    let kind = router.select_model(DetectedLanguage::English);
    router.note_initialized(kind);
    assert_eq!(embed_step(router.model_state(kind), 2), EmbedStep::Invoke);
}

#[test]
fn language_routing_is_configuration_selectable() {
    let by_language = EmbeddingRouter::new(false);
    assert_eq!(by_language.select_model(DetectedLanguage::English), ModelKind::Default);
    assert_eq!(by_language.select_model(DetectedLanguage::Amharic), ModelKind::Multilingual);
    assert_eq!(by_language.select_model(DetectedLanguage::Other), ModelKind::Default);

    let single = EmbeddingRouter::new(true);
    assert_eq!(single.select_model(DetectedLanguage::English), ModelKind::Multilingual);
    assert_eq!(single.select_model(DetectedLanguage::Other), ModelKind::Multilingual);
}

#[test]
fn embedding_error_variants() {
    let errs = vec![
        EmbeddingError::InitializationError("not usable".to_string()),
        EmbeddingError::GenerationError("one call failed".to_string()),
        EmbeddingError::ModelLoadError("download failed".to_string()),
        EmbeddingError::ChunkingError("bad segment".to_string()),
        EmbeddingError::UnsupportedLanguage(DetectedLanguage::Other),
    ];
    assert!(matches!(&errs[0], EmbeddingError::InitializationError(m) if m == "not usable"));
    assert!(matches!(&errs[1], EmbeddingError::GenerationError(_)));
    assert!(matches!(&errs[4], EmbeddingError::UnsupportedLanguage(DetectedLanguage::Other)));
}
