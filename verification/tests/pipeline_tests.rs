use indexsync::classify::classify;
use indexsync::classify::IndexOperation;
use indexsync::classify::NotificationKind;
use indexsync::observe::build_observation;
use indexsync::pipeline::delete_from_index;
use indexsync::pipeline::plan_full_text_update;
use indexsync::pipeline::FullTextUpdate;
use indexsync::pipeline::upsert_apply;
use indexsync::pipeline::upsert_failure_message;
use indexsync::pipeline::upsert_plan;
use indexsync::pipeline::upsert_success_message;
use indexsync::pipeline::ExtractedDocument;
use indexsync::pipeline::UpsertOutcome;
use indexsync::pipeline::UpsertPlan;
use indexsync::relevance::is_relevant_file_for_upsert;
use indexsync::router::DetectedLanguage;
use indexsync::router::EmbeddingError;
use indexsync::store::DeleteOutcome;
use indexsync::store::VectorStore;
use indexsync::text::calculate_hash;

#[test]
fn test_process_file_upsert() {
    let path = "watched/test.txt".to_string();
    let extraction: Result<ExtractedDocument, String> = Ok(ExtractedDocument {
        text: "This is test content for embedding".to_string(),
        language: DetectedLanguage::English,
    });
    let plan = upsert_plan(&extraction);
    let (fingerprint, chunks) = match plan {
        UpsertPlan::Embed { fingerprint, chunks, .. } => (fingerprint, chunks),
        _ => panic!("expected an embed plan"),
    };
    assert_eq!(fingerprint, calculate_hash("This is test content for embedding"));
    assert_eq!(chunks, vec!["passage: This is test content for embedding".to_string()]);

    let mut store = VectorStore::new();
    let vectors: Vec<Vec<u32>> = chunks.iter().map(|_| vec![1, 2, 3]).collect();
    let outcome = upsert_apply(&mut store, &path, fingerprint, Ok(vectors), 7);
    assert_eq!(outcome, UpsertOutcome::Indexed);
    assert!(store.contains_path(&path));
}

#[test]
fn create_notification_indexes_one_entry() {
    // A Create(file.txt) notification with content "hello world": the text
    // is extracted, fingerprinted, embedded as one chunk, and the store
    // gains one entry; the observation reports a successful creation.
    let op = classify(NotificationKind::Created);
    assert_eq!(op, IndexOperation::Upsert);

    let path = "file.txt".to_string();
    assert!(is_relevant_file_for_upsert(&path, true));

    let extraction: Result<ExtractedDocument, String> = Ok(ExtractedDocument {
        text: "hello world".to_string(),
        language: DetectedLanguage::English,
    });
    let (fingerprint, chunks) = match upsert_plan(&extraction) {
        UpsertPlan::Embed { fingerprint, chunks, .. } => (fingerprint, chunks),
        _ => panic!("expected an embed plan"),
    };
    assert_eq!(fingerprint, 0x779a65e7023cd2e7);
    assert_eq!(chunks, vec!["passage: hello world".to_string()]);

    let mut store = VectorStore::new();
    let vectors: Vec<Vec<u32>> = vec![vec![10, 20, 30]];
    let outcome = upsert_apply(&mut store, &path, fingerprint, Ok(vectors), 99);
    assert_eq!(outcome, UpsertOutcome::Indexed);
    assert_eq!(store.len(), 1);
    let entry = store.get(&path).expect("entry for file.txt");
    assert_eq!(entry.fingerprint, 0x779a65e7023cd2e7);
    assert_eq!(entry.vectors.len(), 1);
    assert_eq!(entry.vectors[0].ordinal, 0);
    assert_eq!(entry.vectors[0].vector, vec![10, 20, 30]);
    assert_eq!(entry.last_updated, 99);

    let ev = build_observation(op, &path, true, 99, true, upsert_success_message(&path));
    assert_eq!(ev.event_type, "created");
    assert_eq!(ev.file_path, "file.txt");
    assert!(ev.success);
    assert_eq!(ev.message, "Successfully indexed file.txt");
}

#[test]
fn remove_of_never_indexed_path_is_success() {
    // Remove(file.txt) for a path never indexed: the delete succeeds and
    // reports that the file was not in the index.
    let op = classify(NotificationKind::Removed);
    assert_eq!(op, IndexOperation::Delete);

    let path = "file.txt".to_string();
    let mut store = VectorStore::new();
    let (outcome, message) = delete_from_index(&mut store, &path);
    assert_eq!(outcome, DeleteOutcome::WasNotInIndex);
    assert_eq!(message, "File file.txt was not in index");

    let ev = build_observation(op, &path, false, 5, true, message);
    assert_eq!(ev.event_type, "deleted");
    assert!(ev.success);
}

#[test]
fn jpg_upsert_fails_relevance_before_extraction() {
    // The relevance gate rejects the path, so extraction is never
    // invoked and no semantic-index observation is produced; the
    // full-text index step is independent and still happens.
    let op = classify(NotificationKind::Created);
    assert_eq!(op, IndexOperation::Upsert);
    assert!(!is_relevant_file_for_upsert("photo.jpg", true));
    assert_eq!(
        plan_full_text_update(op, &Some((1000, 2048))),
        FullTextUpdate::Add { last_modified: 1000, size: 2048 }
    );
}

#[test]
fn full_text_update_table() {
    // A stat failure skips only the full-text step of an upsert.
    assert_eq!(plan_full_text_update(IndexOperation::Upsert, &None), FullTextUpdate::Skip);
    // Deletes always attempt removal, stat or no stat.
    assert_eq!(plan_full_text_update(IndexOperation::Delete, &None), FullTextUpdate::Remove);
    assert_eq!(
        plan_full_text_update(IndexOperation::Delete, &Some((5, 6))),
        FullTextUpdate::Remove
    );
    assert_eq!(plan_full_text_update(IndexOperation::Ignore, &Some((5, 6))), FullTextUpdate::Skip);
}

#[test]
fn create_then_remove_leaves_no_entry() {
    // Two rapid notifications on one path: Create(a.txt) then
    // Remove(a.txt), processed in arrival order, leave no entry.
    let path = "a.txt".to_string();
    let mut store = VectorStore::new();

    let extraction: Result<ExtractedDocument, String> = Ok(ExtractedDocument {
        text: "transient".to_string(),
        language: DetectedLanguage::English,
    });
    let fingerprint = match upsert_plan(&extraction) {
        UpsertPlan::Embed { fingerprint, .. } => fingerprint,
        _ => panic!("expected an embed plan"),
    };
    let outcome = upsert_apply(&mut store, &path, fingerprint, Ok(vec![vec![1]]), 1);
    assert_eq!(outcome, UpsertOutcome::Indexed);
    assert!(store.contains_path(&path));

    let (outcome, _) = delete_from_index(&mut store, &path);
    assert_eq!(outcome, DeleteOutcome::Removed);
    assert!(!store.contains_path(&path));
    assert_eq!(store.len(), 0);
}

#[test]
fn extraction_failure_aborts_with_message() {
    let extraction: Result<ExtractedDocument, String> = Err("unreadable bytes".to_string());
    match upsert_plan(&extraction) {
        UpsertPlan::Abort { message } => {
            assert_eq!(message, "Text extraction failed: unreadable bytes");
            let m = upsert_failure_message(&"doc.txt".to_string(), &message);
            assert_eq!(m, "Error indexing doc.txt: Text extraction failed: unreadable bytes");
        }
        _ => panic!("expected an abort"),
    }
}

#[test]
fn whitespace_content_is_skipped_silently() {
    let extraction: Result<ExtractedDocument, String> = Ok(ExtractedDocument {
        text: "   \n\t  ".to_string(),
        language: DetectedLanguage::English,
    });
    assert!(matches!(upsert_plan(&extraction), UpsertPlan::SkipEmpty));
}

#[test]
fn embedding_failure_leaves_store_unchanged() {
    let path = "doc.txt".to_string();
    let mut store = VectorStore::new();
    let err = EmbeddingError::GenerationError("model choked".to_string());
    let outcome = upsert_apply(&mut store, &path, 1, Err(err), 2);
    assert_eq!(outcome, UpsertOutcome::EmbeddingFailed);
    assert!(!store.contains_path(&path));
}

#[test]
fn zero_embeddings_skip_the_write() {
    let path = "doc.txt".to_string();
    let mut store = VectorStore::new();
    let outcome = upsert_apply(&mut store, &path, 1, Ok(Vec::new()), 2);
    assert_eq!(outcome, UpsertOutcome::SkippedNoEmbeddings);
    assert_eq!(store.len(), 0);
}

#[test]
fn modified_event_type_when_file_is_gone() {
    let path = "gone.txt".to_string();
    let ev = build_observation(
        IndexOperation::Upsert,
        &path,
        false,
        3,
        false,
        "Error indexing gone.txt: Text extraction failed: missing".to_string(),
    );
    assert_eq!(ev.event_type, "modified");
    assert!(!ev.success);
}
