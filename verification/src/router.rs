//! The embedding router: prepares text batches for an embedding model and
//! decides, from the model's recorded state, what the next step is.
//!
//! Query texts are embedded as single units after a role marker is
//! prefixed; passage texts are chunked into bounded segments, with
//! whitespace-only inputs dropped first.  The model itself lives outside
//! this crate: the router records whether it was constructed, and its
//! decision function guarantees that an empty batch never touches the
//! model and that a failed construction is permanent and surfaces as an
//! initialization error on every later call.

use crate::chunker::chunk_strings;
use crate::chunker::chunk_text;
use crate::text::trim;
use crate::text::trim_spec;
use vstd::prelude::*;
use vstd::string::*;

verus! {

/// The language detected for an extracted document.
#[derive(Debug, Clone, Copy, PartialEq, Eq, Structural)]
pub enum DetectedLanguage {
    English,
    Amharic,
    Other,
}

/// Failures of the embedding subsystem.  Initialization errors mean the
/// model never became usable; generation errors mean one embedding call
/// failed on otherwise usable input.
#[derive(Debug, Clone)]
pub enum EmbeddingError {
    InitializationError(String),
    GenerationError(String),
    ModelLoadError(String),
    ChunkingError(String),
    UnsupportedLanguage(DetectedLanguage),
}

/// The recorded state of one lazily-constructed model instance.
#[derive(Debug, Clone)]
pub enum ModelState {
    Uninitialized,
    Ready,
    Failed(String),
}

/// Which model a batch is routed to.
#[derive(Debug, Clone, Copy, PartialEq, Eq, Structural)]
pub enum ModelKind {
    Default,
    Multilingual,
}

/// The next step for an embedding call, decided from the model state and
/// the prepared chunk count alone.
#[derive(Debug, Clone, Copy, PartialEq, Eq, Structural)]
pub enum EmbedStep {
    ReturnEmpty,
    InitializeFirst,
    Invoke,
    FailInitialization,
}

/// The prepared strings for a query batch: each text prefixed with the
/// role marker and a separating colon.
pub open spec fn query_strings(texts: Seq<Seq<char>>, prefix: Seq<char>) -> Seq<Seq<char>> {
    texts.map_values(|t: Seq<char>| prefix + ": "@ + t)
}

/// The prepared strings for a passage batch: whitespace-only texts are
/// dropped, every other text is chunked with the passage role marker.
pub open spec fn passage_chunks(texts: Seq<Seq<char>>) -> Seq<Seq<char>>
    decreases texts.len(),
{
    if texts.len() == 0 {
        Seq::empty()
    } else {
        (if trim_spec(texts[0]).len() == 0 {
            Seq::<Seq<char>>::empty()
        } else {
            chunk_strings(texts[0], "passage: "@)
        }) + passage_chunks(texts.drop_first())
    }
}

/// What one batch is prepared into, for either role.
pub open spec fn plan_spec(texts: Seq<Seq<char>>, query: bool, prefix: Seq<char>) -> Seq<
    Seq<char>,
> {
    if query {
        query_strings(texts, prefix)
    } else {
        passage_chunks(texts)
    }
}

/// The decision table for one embedding call: an empty batch returns
/// empty without touching the model; otherwise the model state rules.
pub open spec fn embed_step_spec(state: ModelState, chunk_count: nat) -> EmbedStep {
    if chunk_count == 0 {
        EmbedStep::ReturnEmpty
    } else {
        match state {
            ModelState::Uninitialized => EmbedStep::InitializeFirst,
            ModelState::Ready => EmbedStep::Invoke,
            ModelState::Failed(_) => EmbedStep::FailInitialization,
        }
    }
}

/// The role marker for a batch: `query` for query batches, `passage`
/// otherwise.
pub fn role_prefix(query: bool) -> (r: &'static str)
    ensures
        query ==> r@ == "query"@,
        !query ==> r@ == "passage"@,
{
    if query {
        "query"
    } else {
        "passage"
    }
}

/// Prepares a batch of texts for embedding: for queries, each text is
/// prefixed with the given role marker and embedded as a single unit;
/// for passages, whitespace-only texts are dropped and the rest are
/// chunked under the fixed passage marker, so the prefix argument
/// matters for queries alone.  Order is preserved and nothing is
/// deduplicated.
pub fn plan_chunks(content: &Vec<String>, query: bool, prefix: &str) -> (r: Vec<String>)
    ensures
        r.deep_view() == plan_spec(content.deep_view(), query, prefix@),
        content@.len() == 0 ==> r@.len() == 0,
{
    let ghost texts = content.deep_view();
    let mut out: Vec<String> = Vec::new();
    let mut i: usize = 0;
    if query {
        proof {
            assert(out.deep_view() =~~= query_strings(texts.take(0), prefix@));
        }
        while i < content.len()
            invariant
                i <= content.len(),
                texts == content.deep_view(),
                out.deep_view() == query_strings(texts.take(i as int), prefix@),
            decreases content.len() - i,
        {
            let mut s = String::from_str(prefix);
            s.append(": ");
            s.append(content[i].as_str());
            let ghost old_out = out.deep_view();
            out.push(s);
            proof {
                assert(s@ == prefix@ + ": "@ + texts[i as int]);
                assert(texts.take(i + 1) =~= texts.take(i as int).push(texts[i as int]));
                assert(out.deep_view() =~~= old_out.push(s@));
                assert(query_strings(texts.take(i + 1), prefix@) =~~= query_strings(
                    texts.take(i as int),
                    prefix@,
                ).push(prefix@ + ": "@ + texts[i as int]));
            }
            i = i + 1;
        }
        proof {
            assert(texts.take(content@.len() as int) =~= texts);
        }
        out
    } else {
        proof {
            assert(texts.skip(0) =~= texts);
            assert(out.deep_view() + passage_chunks(texts) =~~= passage_chunks(texts));
        }
        while i < content.len()
            invariant
                i <= content.len(),
                texts == content.deep_view(),
                passage_chunks(texts) == out.deep_view() + passage_chunks(texts.skip(i as int)),
            decreases content.len() - i,
        {
            let ghost rest = texts.skip(i as int);
            proof {
                assert(rest[0] == texts[i as int]);
                assert(rest.drop_first() =~= texts.skip(i + 1));
            }
            let t = trim(content[i].as_str());
            if t.unicode_len() > 0 {
                let mut chunks = chunk_text(content[i].as_str(), "passage: ");
                let ghost old_out = out.deep_view();
                let ghost added = chunks.deep_view();
                out.append(&mut chunks);
                proof {
                    assert(out.deep_view() =~~= old_out + added);
                    assert(passage_chunks(rest) =~~= added + passage_chunks(texts.skip(i + 1)));
                    assert((old_out + added) + passage_chunks(texts.skip(i + 1)) =~~= old_out + (
                    added + passage_chunks(texts.skip(i + 1))));
                }
            } else {
                proof {
                    assert(passage_chunks(rest) =~~= passage_chunks(texts.skip(i + 1)));
                }
            }
            i = i + 1;
        }
        proof {
            assert(texts.skip(content@.len() as int) =~= Seq::<Seq<char>>::empty());
            assert(out.deep_view() + passage_chunks(Seq::<Seq<char>>::empty())
                =~~= out.deep_view());
        }
        out
    }
}

/// Decides the next step for an embedding call from the model state and
/// the number of prepared chunks.
pub fn embed_step(state: &ModelState, chunk_count: usize) -> (s: EmbedStep)
    ensures
        s == embed_step_spec(*state, chunk_count as nat),
{
    if chunk_count == 0 {
        EmbedStep::ReturnEmpty
    } else {
        match state {
            ModelState::Uninitialized => EmbedStep::InitializeFirst,
            ModelState::Ready => EmbedStep::Invoke,
            ModelState::Failed(_) => EmbedStep::FailInitialization,
        }
    }
}

/// The embedding router: holds the recorded state of the two model
/// instances and the configuration choice between routing by detected
/// language and always using the multilingual model.
#[derive(Debug, Clone)]
pub struct EmbeddingRouter {
    pub multilingual_only: bool,
    pub default_model: ModelState,
    pub multilingual_model: ModelState,
}

impl EmbeddingRouter {
    /// The model a batch of the given language is routed to.
    pub open spec fn model_kind_for_spec(&self, language: DetectedLanguage) -> ModelKind {
        if self.multilingual_only {
            ModelKind::Multilingual
        } else {
            match language {
                DetectedLanguage::English => ModelKind::Default,
                DetectedLanguage::Amharic => ModelKind::Multilingual,
                DetectedLanguage::Other => ModelKind::Default,
            }
        }
    }

    /// The recorded state of the model of the given kind.
    pub open spec fn state_of(&self, kind: ModelKind) -> ModelState {
        match kind {
            ModelKind::Default => self.default_model,
            ModelKind::Multilingual => self.multilingual_model,
        }
    }

    /// A fresh router: no model constructed yet.
    pub fn new(multilingual_only: bool) -> (r: EmbeddingRouter)
        ensures
            r.multilingual_only == multilingual_only,
            r.default_model is Uninitialized,
            r.multilingual_model is Uninitialized,
    {
        EmbeddingRouter {
            multilingual_only,
            default_model: ModelState::Uninitialized,
            multilingual_model: ModelState::Uninitialized,
        }
    }

    /// Selects the model for a batch by its detected language, or the
    /// multilingual model for every language when so configured.
    pub fn select_model(&self, language: DetectedLanguage) -> (k: ModelKind)
        ensures
            k == self.model_kind_for_spec(language),
    {
        if self.multilingual_only {
            ModelKind::Multilingual
        } else {
            match language {
                DetectedLanguage::English => ModelKind::Default,
                DetectedLanguage::Amharic => ModelKind::Multilingual,
                DetectedLanguage::Other => ModelKind::Default,
            }
        }
    }

    /// The recorded state of the model of the given kind.
    pub fn model_state(&self, kind: ModelKind) -> (s: &ModelState)
        ensures
            *s == self.state_of(kind),
    {
        match kind {
            ModelKind::Default => &self.default_model,
            ModelKind::Multilingual => &self.multilingual_model,
        }
    }

    /// Records that the model of the given kind was constructed.  Only a
    /// model that was never tried before can be recorded, so a recorded
    /// failure is permanent.
    pub fn note_initialized(&mut self, kind: ModelKind)
        requires
            old(self).state_of(kind) is Uninitialized,
        ensures
            final(self).state_of(kind) is Ready,
            final(self).multilingual_only == old(self).multilingual_only,
            kind != ModelKind::Default ==> final(self).default_model == old(self).default_model,
            kind != ModelKind::Multilingual ==> final(self).multilingual_model == old(
                self,
            ).multilingual_model,
    {
        match kind {
            ModelKind::Default => {
                self.default_model = ModelState::Ready;
            },
            ModelKind::Multilingual => {
                self.multilingual_model = ModelState::Ready;
            },
        }
    }

    /// Records that constructing the model of the given kind failed.
    /// Only a model that was never tried before can be recorded, so the
    /// failure is permanent for the life of the router.
    pub fn note_init_failed(&mut self, kind: ModelKind, message: String)
        requires
            old(self).state_of(kind) is Uninitialized,
        ensures
            final(self).state_of(kind) == ModelState::Failed(message),
            final(self).multilingual_only == old(self).multilingual_only,
            kind != ModelKind::Default ==> final(self).default_model == old(self).default_model,
            kind != ModelKind::Multilingual ==> final(self).multilingual_model == old(
                self,
            ).multilingual_model,
    {
        match kind {
            ModelKind::Default => {
                self.default_model = ModelState::Failed(message);
            },
            ModelKind::Multilingual => {
                self.multilingual_model = ModelState::Failed(message);
            },
        }
    }
}

/// An empty input batch is prepared into an empty chunk list, and the
/// decision on an empty chunk list is to return an empty result, whatever
/// state the model is in — in particular, an uninitialized model is never
/// constructed for an empty batch.
pub proof fn lemma_empty_batch(state: ModelState, query: bool, prefix: Seq<char>)
    ensures
        plan_spec(Seq::empty(), query, prefix) =~= Seq::<Seq<char>>::empty(),
        embed_step_spec(state, 0) == EmbedStep::ReturnEmpty,
{
    assert(query_strings(Seq::empty(), prefix) =~= Seq::<Seq<char>>::empty());
}

/// A whitespace-only passage input contributes no chunks: a batch of one
/// such text is prepared into an empty result.
pub proof fn lemma_whitespace_passage_dropped(t: Seq<char>, prefix: Seq<char>)
    requires
        trim_spec(t).len() == 0,
    ensures
        plan_spec(seq![t], false, prefix) =~= Seq::<Seq<char>>::empty(),
{
    let s = seq![t];
    assert(s[0] == t);
    assert(s.drop_first() =~= Seq::<Seq<char>>::empty());
    assert(passage_chunks(s) == Seq::<Seq<char>>::empty() + passage_chunks(s.drop_first()));
    assert(Seq::<Seq<char>>::empty() + Seq::<Seq<char>>::empty() =~= Seq::<Seq<char>>::empty());
}

} // verus!
