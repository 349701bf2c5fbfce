//! The per-path pipeline: what happens to one path once a notification
//! has classified it for an upsert or a delete.
//!
//! Content extraction and the embedding model live outside this crate;
//! their results arrive here as plain values, and every decision taken on
//! them — skip, abort, or write to the store — is pinned down exactly.

use crate::chunker::chunk_strings;
use crate::chunker::chunk_text;
use crate::classify::IndexOperation;
use crate::router::DetectedLanguage;
use crate::router::EmbeddingError;
use crate::store::DeleteOutcome;
use crate::store::EntryModel;
use crate::store::VectorStore;
use crate::text::calculate_hash;
use crate::text::fingerprint_of;
use crate::text::trim;
use crate::text::trim_spec;
use vstd::prelude::*;
use vstd::string::*;

verus! {

/// What the content extractor produced for one path: the plain text and
/// the detected language.
#[derive(Debug, Clone)]
pub struct ExtractedDocument {
    pub text: String,
    pub language: DetectedLanguage,
}

/// The decision taken after extraction, before any model is touched:
/// abort on extraction failure, skip silently when the trimmed text is
/// empty, or embed the prepared chunks.
#[derive(Debug)]
pub enum UpsertPlan {
    Abort { message: String },
    SkipEmpty,
    Embed { fingerprint: u64, language: DetectedLanguage, chunks: Vec<String> },
}

/// The outcome of applying an upsert: the entry was written, or the path
/// was skipped because embedding returned nothing or failed.  A skip
/// leaves the prior entry (if any) untouched — never a half-written one.
#[derive(Debug, Clone, Copy, PartialEq, Eq, Structural)]
pub enum UpsertOutcome {
    Indexed,
    SkippedNoEmbeddings,
    EmbeddingFailed,
}

/// Decides what to do with one path from the extractor's result: a
/// failure aborts this path with a message; whitespace-only content is
/// skipped without touching the index; otherwise the trimmed text is
/// fingerprinted and chunked for the passage role.
pub fn upsert_plan(extraction: &Result<ExtractedDocument, String>) -> (p: UpsertPlan)
    ensures
        match *extraction {
            Result::Ok(doc) => if trim_spec(doc.text@).len() == 0 {
                p is SkipEmpty
            } else {
                p matches UpsertPlan::Embed { fingerprint, language, chunks }
                    && fingerprint == fingerprint_of(doc.text@) && language == doc.language
                    && chunks.deep_view() == chunk_strings(trim_spec(doc.text@), "passage: "@)
            },
            Result::Err(e) => p matches UpsertPlan::Abort { message } && message@
                == "Text extraction failed: "@ + e@,
        },
{
    match extraction {
        Result::Err(e) => {
            let mut message = String::from_str("Text extraction failed: ");
            message.append(e.as_str());
            UpsertPlan::Abort { message }
        },
        Result::Ok(doc) => {
            let trimmed = trim(doc.text.as_str());
            if trimmed.unicode_len() == 0 {
                UpsertPlan::SkipEmpty
            } else {
                let fingerprint = calculate_hash(trimmed);
                let chunks = chunk_text(trimmed, "passage: ");
                UpsertPlan::Embed { fingerprint, language: doc.language, chunks }
            }
        },
    }
}

/// Applies the embedding result for one path to the store.  A generation
/// failure or an empty embedding set skips the path and leaves the store
/// exactly as it was; otherwise the path's entry is replaced wholesale
/// with the new fingerprint and vectors.
pub fn upsert_apply(
    store: &mut VectorStore,
    path: &String,
    fingerprint: u64,
    embeddings: Result<Vec<Vec<u32>>, EmbeddingError>,
    timestamp: u64,
) -> (o: UpsertOutcome)
    requires
        old(store).wf(),
    ensures
        final(store).wf(),
        match embeddings {
            Result::Ok(v) => if v.deep_view().len() == 0 {
                final(store)@ == old(store)@ && o == UpsertOutcome::SkippedNoEmbeddings
            } else {
                final(store)@ == old(store)@.insert(
                    path@,
                    EntryModel { fingerprint, vectors: v.deep_view(), last_updated: timestamp },
                ) && o == UpsertOutcome::Indexed
            },
            Result::Err(_) => final(store)@ == old(store)@ && o == UpsertOutcome::EmbeddingFailed,
        },
{
    match embeddings {
        Result::Err(_) => UpsertOutcome::EmbeddingFailed,
        Result::Ok(v) => {
            if v.len() == 0 {
                UpsertOutcome::SkippedNoEmbeddings
            } else {
                store.upsert(path, fingerprint, v, timestamp);
                UpsertOutcome::Indexed
            }
        },
    }
}

/// Removes one path from the store and reports the outcome with its
/// message: removing an absent path is a success that says the file was
/// not in the index.
pub fn delete_from_index(store: &mut VectorStore, path: &String) -> (r: (DeleteOutcome, String))
    requires
        old(store).wf(),
    ensures
        final(store).wf(),
        final(store)@ == old(store)@.remove(path@),
        r.0 == DeleteOutcome::Removed <==> old(store)@.contains_key(path@),
        r.0 == DeleteOutcome::Removed ==> r.1@ == "Successfully removed "@ + path@
            + " from index"@,
        r.0 == DeleteOutcome::WasNotInIndex ==> r.1@ == "File "@ + path@ + " was not in index"@,
{
    let outcome = store.delete(path);
    let message = match outcome {
        DeleteOutcome::Removed => {
            let mut m = String::from_str("Successfully removed ");
            m.append(path.as_str());
            m.append(" from index");
            m
        },
        DeleteOutcome::WasNotInIndex => {
            let mut m = String::from_str("File ");
            m.append(path.as_str());
            m.append(" was not in index");
            m
        },
    };
    (outcome, message)
}

/// The full-text index step for one path.  It runs independently of the
/// semantic pipeline and for every file, whatever its content type.
#[derive(Debug, Clone, Copy, PartialEq, Eq, Structural)]
pub enum FullTextUpdate {
    Add { last_modified: u64, size: u64 },
    Remove,
    Skip,
}

/// Decides the full-text index step for one path: an upsert adds the
/// path keyed by its fresh last-modified time and size, and a failure to
/// stat skips only this step; a delete always attempts removal; ignored
/// operations do nothing.
pub fn plan_full_text_update(op: IndexOperation, stat: &Option<(u64, u64)>) -> (u: FullTextUpdate)
    ensures
        u == match op {
            IndexOperation::Upsert => match *stat {
                Option::Some((last_modified, size)) => FullTextUpdate::Add { last_modified, size },
                Option::None => FullTextUpdate::Skip,
            },
            IndexOperation::Delete => FullTextUpdate::Remove,
            IndexOperation::Ignore => FullTextUpdate::Skip,
        },
{
    match op {
        IndexOperation::Upsert => match stat {
            Option::Some((last_modified, size)) => FullTextUpdate::Add {
                last_modified: *last_modified,
                size: *size,
            },
            Option::None => FullTextUpdate::Skip,
        },
        IndexOperation::Delete => FullTextUpdate::Remove,
        IndexOperation::Ignore => FullTextUpdate::Skip,
    }
}

/// The message reported for a successfully indexed path.
pub fn upsert_success_message(path: &String) -> (m: String)
    ensures
        m@ == "Successfully indexed "@ + path@,
{
    let mut m = String::from_str("Successfully indexed ");
    m.append(path.as_str());
    m
}

/// The message reported when indexing a path failed.
pub fn upsert_failure_message(path: &String, error: &String) -> (m: String)
    ensures
        m@ == "Error indexing "@ + path@ + ": "@ + error@,
{
    let mut m = String::from_str("Error indexing ");
    m.append(path.as_str());
    m.append(": ");
    m.append(error.as_str());
    m
}

} // verus!
