//! The in-memory model of the vector store that the index coordinator
//! drives.
//!
//! The store keeps at most one entry per path.  An upsert replaces the
//! whole entry for its path — an overwrite, never an accumulation — and a
//! delete of an absent path succeeds and reports that the path was not in
//! the index, so deletes are idempotent.  The store's view is the map from
//! paths to entry models, and every operation's contract is stated over
//! that map.

use vstd::prelude::*;

verus! {

/// One embedding chunk of an indexed document: its position in the
/// document and its vector, held as the bit patterns of the model's
/// vector components.
#[derive(Debug, Clone)]
pub struct EmbeddingChunk {
    pub ordinal: usize,
    pub vector: Vec<u32>,
}

/// One indexed document: the path is the unique key; the fingerprint is
/// the change-detection hash of the trimmed text; the vectors are the
/// document's embedding chunks in order.
#[derive(Debug)]
pub struct IndexedEntry {
    pub path: String,
    pub fingerprint: u64,
    pub vectors: Vec<EmbeddingChunk>,
    pub last_updated: u64,
}

/// The mathematical content of one entry.
pub struct EntryModel {
    pub fingerprint: u64,
    pub vectors: Seq<Seq<u32>>,
    pub last_updated: u64,
}

impl IndexedEntry {
    /// The mathematical content of this entry.
    pub open spec fn model(&self) -> EntryModel {
        EntryModel {
            fingerprint: self.fingerprint,
            vectors: self.vectors@.map_values(|c: EmbeddingChunk| c.vector@),
            last_updated: self.last_updated,
        }
    }

    /// Chunks are numbered by their position.
    pub open spec fn wf(&self) -> bool {
        forall|k: int|
            0 <= k < self.vectors@.len() ==> (#[trigger] self.vectors@[k]).ordinal == k
    }
}

/// No two entries share a path.
pub open spec fn paths_unique(s: Seq<IndexedEntry>) -> bool {
    forall|i: int, j: int|
        #![trigger s[i].path, s[j].path]
        0 <= i < j < s.len() ==> s[i].path@ != s[j].path@
}

/// The map from paths to entry models that a sequence of entries holds.
pub open spec fn map_of(s: Seq<IndexedEntry>) -> Map<Seq<char>, EntryModel>
    decreases s.len(),
{
    if s.len() == 0 {
        Map::empty()
    } else {
        map_of(s.drop_last()).insert(s.last().path@, s.last().model())
    }
}

proof fn lemma_map_of_contains(s: Seq<IndexedEntry>, q: Seq<char>)
    ensures
        map_of(s).contains_key(q) <==> (exists|i: int| 0 <= i < s.len() && s[i].path@ == q),
    decreases s.len(),
{
    if s.len() > 0 {
        lemma_map_of_contains(s.drop_last(), q);
        if s.last().path@ == q {
            assert(s[s.len() - 1].path@ == q);
        } else {
            if exists|i: int| 0 <= i < s.drop_last().len() && s.drop_last()[i].path@ == q {
                let i = choose|i: int|
                    0 <= i < s.drop_last().len() && s.drop_last()[i].path@ == q;
                assert(s[i].path@ == q);
            }
            if exists|i: int| 0 <= i < s.len() && s[i].path@ == q {
                let i = choose|i: int| 0 <= i < s.len() && s[i].path@ == q;
                assert(i < s.len() - 1);
                assert(s.drop_last()[i].path@ == q);
            }
        }
    }
}

proof fn lemma_unique_drop_last(s: Seq<IndexedEntry>)
    requires
        paths_unique(s),
        s.len() > 0,
    ensures
        paths_unique(s.drop_last()),
        !map_of(s.drop_last()).contains_key(s.last().path@),
{
    assert forall|i: int, j: int|
        #![trigger s.drop_last()[i].path, s.drop_last()[j].path]
        0 <= i < j < s.drop_last().len() implies s.drop_last()[i].path@ != s.drop_last()[
        j
    ].path@ by {
        assert(s.drop_last()[i] == s[i]);
        assert(s.drop_last()[j] == s[j]);
    }
    lemma_map_of_contains(s.drop_last(), s.last().path@);
    if exists|i: int| 0 <= i < s.drop_last().len() && s.drop_last()[i].path@ == s.last().path@ {
        let i = choose|i: int|
            0 <= i < s.drop_last().len() && s.drop_last()[i].path@ == s.last().path@;
        assert(s[i].path@ == s[s.len() - 1].path@);
        assert(false);
    }
}

proof fn lemma_map_of_get(s: Seq<IndexedEntry>, i: int)
    requires
        paths_unique(s),
        0 <= i < s.len(),
    ensures
        map_of(s).contains_key(s[i].path@),
        map_of(s)[s[i].path@] == s[i].model(),
    decreases s.len(),
{
    lemma_map_of_contains(s, s[i].path@);
    if i == s.len() - 1 {
    } else {
        lemma_unique_drop_last(s);
        assert(s[i].path@ != s.last().path@);
        assert(s.drop_last()[i] == s[i]);
        lemma_map_of_get(s.drop_last(), i);
    }
}

proof fn lemma_map_of_remove(s: Seq<IndexedEntry>, i: int)
    requires
        paths_unique(s),
        0 <= i < s.len(),
    ensures
        map_of(s.remove(i)) == map_of(s).remove(s[i].path@),
        paths_unique(s.remove(i)),
        !map_of(s.remove(i)).contains_key(s[i].path@),
    decreases s.len(),
{
    let q = s[i].path@;
    assert forall|a: int, b: int|
        #![trigger s.remove(i)[a].path, s.remove(i)[b].path]
        0 <= a < b < s.remove(i).len() implies s.remove(i)[a].path@ != s.remove(i)[b].path@ by {
        let a0 = if a < i {
            a
        } else {
            a + 1
        };
        let b0 = if b < i {
            b
        } else {
            b + 1
        };
        assert(s.remove(i)[a] == s[a0]);
        assert(s.remove(i)[b] == s[b0]);
    }
    lemma_map_of_contains(s.remove(i), q);
    if exists|k: int| 0 <= k < s.remove(i).len() && s.remove(i)[k].path@ == q {
        let k = choose|k: int| 0 <= k < s.remove(i).len() && s.remove(i)[k].path@ == q;
        let k0 = if k < i {
            k
        } else {
            k + 1
        };
        assert(s.remove(i)[k] == s[k0]);
        assert(s[k0].path@ == s[i].path@ && k0 != i);
        assert(false);
    }
    if i == s.len() - 1 {
        lemma_unique_drop_last(s);
        assert(s.remove(i) =~= s.drop_last());
        assert(map_of(s).remove(q) =~= map_of(s.drop_last()));
    } else {
        let s2 = s.drop_last();
        lemma_unique_drop_last(s);
        lemma_map_of_remove(s2, i);
        assert(s2[i] == s[i]);
        assert(s.remove(i).drop_last() =~= s2.remove(i));
        assert(s.remove(i).last() == s.last());
        assert(map_of(s.remove(i)) == map_of(s2.remove(i)).insert(
            s.last().path@,
            s.last().model(),
        ));
        assert(s.last().path@ != q);
        assert(map_of(s2).remove(q).insert(s.last().path@, s.last().model()) =~= map_of(
            s2,
        ).insert(s.last().path@, s.last().model()).remove(q));
    }
}

proof fn lemma_map_of_len(s: Seq<IndexedEntry>)
    requires
        paths_unique(s),
    ensures
        map_of(s).dom().finite(),
        map_of(s).dom().len() == s.len(),
    decreases s.len(),
{
    if s.len() > 0 {
        lemma_unique_drop_last(s);
        lemma_map_of_len(s.drop_last());
        assert(map_of(s).dom() =~= map_of(s.drop_last()).dom().insert(s.last().path@));
        vstd::set::axiom_set_insert_finite(map_of(s.drop_last()).dom(), s.last().path@);
        vstd::set::axiom_set_insert_len(map_of(s.drop_last()).dom(), s.last().path@);
    }
}

/// The outcome of a delete: either an entry was removed, or the path was
/// not in the index — which is a success too, not an error.
#[derive(Debug, Clone, Copy, PartialEq, Eq, Structural)]
pub enum DeleteOutcome {
    Removed,
    WasNotInIndex,
}

fn build_chunks(vectors: Vec<Vec<u32>>) -> (chunks: Vec<EmbeddingChunk>)
    ensures
        chunks@.len() == vectors.deep_view().len(),
        forall|k: int|
            0 <= k < chunks@.len() ==> (#[trigger] chunks@[k]).ordinal == k && chunks@[k].vector@
                == vectors.deep_view()[k],
{
    let ghost orig = vectors.deep_view();
    let mut rest = vectors;
    let mut chunks: Vec<EmbeddingChunk> = Vec::new();
    proof {
        assert(rest.deep_view() =~= orig.skip(0));
    }
    while rest.len() > 0
        invariant
            chunks@.len() + rest@.len() == orig.len(),
            rest.deep_view() == orig.skip(chunks@.len() as int),
            forall|k: int|
                0 <= k < chunks@.len() ==> (#[trigger] chunks@[k]).ordinal == k
                    && chunks@[k].vector@ == orig[k],
        decreases rest@.len(),
    {
        let ghost done = chunks@.len() as int;
        let ghost deep0 = rest.deep_view();
        let ghost rest0 = rest@;
        let v = rest.remove(0);
        let ordinal = chunks.len();
        chunks.push(EmbeddingChunk { ordinal, vector: v });
        proof {
            assert(v == rest0[0]);
            assert(deep0[0] == rest0[0].deep_view());
            assert(v.deep_view() =~= v@);
            assert(orig.skip(done)[0] == orig[done]);
            assert(v@ =~= orig[done]);
            assert forall|k: int| 0 <= k < rest@.len() implies rest.deep_view()[k] == orig.skip(
                done + 1,
            )[k] by {
                assert(rest@[k] == rest0[k + 1]);
                assert(rest.deep_view()[k] == rest0[k + 1].deep_view());
                assert(deep0[k + 1] == rest0[k + 1].deep_view());
                assert(deep0[k + 1] == orig.skip(done)[k + 1]);
                assert(orig.skip(done)[k + 1] == orig[done + 1 + k]);
                assert(orig.skip(done + 1)[k] == orig[done + 1 + k]);
            }
            assert(rest.deep_view() =~= orig.skip(done + 1));
        }
    }
    proof {
        assert(chunks@.len() == orig.len());
    }
    chunks
}

/// The vector store model: a collection of indexed entries with at most
/// one entry per path.
#[derive(Debug)]
pub struct VectorStore {
    entries: Vec<IndexedEntry>,
}

impl View for VectorStore {
    type V = Map<Seq<char>, EntryModel>;

    closed spec fn view(&self) -> Map<Seq<char>, EntryModel> {
        map_of(self.entries@)
    }
}

impl VectorStore {
    /// At most one entry per path, and every entry's chunks numbered in
    /// order.
    pub closed spec fn wf(&self) -> bool {
        &&& paths_unique(self.entries@)
        &&& forall|i: int| 0 <= i < self.entries@.len() ==> (#[trigger] self.entries@[i]).wf()
    }

    /// An empty store.
    pub fn new() -> (s: VectorStore)
        ensures
            s.wf(),
            s@ == Map::<Seq<char>, EntryModel>::empty(),
    {
        VectorStore { entries: Vec::new() }
    }

    fn find(&self, path: &String) -> (r: Option<usize>)
        ensures
            match r {
                Option::Some(i) => i < self.entries@.len() && self.entries@[i as int].path@
                    == path@,
                Option::None => forall|j: int|
                    0 <= j < self.entries@.len() ==> (#[trigger] self.entries@[j]).path@ != path@,
            },
    {
        let mut k: usize = 0;
        while k < self.entries.len()
            invariant
                k <= self.entries@.len(),
                forall|j: int| 0 <= j < k ==> (#[trigger] self.entries@[j]).path@ != path@,
            decreases self.entries@.len() - k,
        {
            let e = &self.entries[k];
            if e.path == *path {
                return Option::Some(k);
            }
            k = k + 1;
        }
        Option::None
    }

    /// The number of entries in the store.
    pub fn len(&self) -> (n: usize)
        requires
            self.wf(),
        ensures
            n == self@.dom().len(),
            self@.dom().finite(),
    {
        proof {
            lemma_map_of_len(self.entries@);
        }
        self.entries.len()
    }

    /// Whether the store holds an entry for `path`.
    pub fn contains_path(&self, path: &String) -> (r: bool)
        requires
            self.wf(),
        ensures
            r == self@.contains_key(path@),
    {
        proof {
            lemma_map_of_contains(self.entries@, path@);
        }
        match self.find(path) {
            Option::Some(_) => true,
            Option::None => false,
        }
    }

    /// The entry for `path`, if the store holds one.
    pub fn get(&self, path: &String) -> (r: Option<&IndexedEntry>)
        requires
            self.wf(),
        ensures
            match r {
                Option::Some(e) => self@.contains_key(path@) && e.path@ == path@ && e.model()
                    == self@[path@] && e.wf(),
                Option::None => !self@.contains_key(path@),
            },
    {
        proof {
            lemma_map_of_contains(self.entries@, path@);
        }
        match self.find(path) {
            Option::Some(i) => {
                proof {
                    lemma_map_of_get(self.entries@, i as int);
                }
                Option::Some(&self.entries[i])
            },
            Option::None => Option::None,
        }
    }

    /// Replaces the entry for `path` with one built from the given
    /// fingerprint and embedding vectors: an overwrite, not a merge —
    /// whatever was stored for the path before is superseded wholesale,
    /// and no other path's entry changes.
    pub fn upsert(
        &mut self,
        path: &String,
        fingerprint: u64,
        vectors: Vec<Vec<u32>>,
        timestamp: u64,
    )
        requires
            old(self).wf(),
        ensures
            final(self).wf(),
            final(self)@ == old(self)@.insert(
                path@,
                EntryModel {
                    fingerprint,
                    vectors: vectors.deep_view(),
                    last_updated: timestamp,
                },
            ),
    {
        let ghost orig = vectors.deep_view();
        let chunks = build_chunks(vectors);
        let entry = IndexedEntry { path: path.clone(), fingerprint, vectors: chunks, last_updated: timestamp };
        proof {
            assert(entry.model().vectors =~~= orig);
        }
        let ghost s0 = self.entries@;
        match self.find(path) {
            Option::Some(i) => {
                proof {
                    lemma_map_of_remove(s0, i as int);
                }
                self.entries.remove(i);
                let ghost s1 = self.entries@;
                self.entries.push(entry);
                proof {
                    assert(self.entries@.drop_last() =~= s1);
                    assert(self.entries@.last() == entry);
                    assert(map_of(self.entries@) == map_of(s1).insert(path@, entry.model()));
                    assert(map_of(s0).remove(path@).insert(path@, entry.model()) =~= map_of(
                        s0,
                    ).insert(path@, entry.model()));
                    lemma_map_of_contains(s1, path@);
                    assert forall|a: int, b: int|
                        #![trigger self.entries@[a].path, self.entries@[b].path]
                        0 <= a < b < self.entries@.len() implies self.entries@[a].path@
                        != self.entries@[b].path@ by {
                        if b < self.entries@.len() - 1 {
                            assert(self.entries@[a] == s1[a]);
                            assert(self.entries@[b] == s1[b]);
                        } else {
                            assert(self.entries@[a] == s1[a]);
                        }
                    }
                    assert(forall|k: int|
                        0 <= k < self.entries@.len() - 1 ==> (#[trigger] self.entries@[k])
                            == s1[k]);
                }
            },
            Option::None => {
                self.entries.push(entry);
                proof {
                    assert(self.entries@.drop_last() =~= s0);
                    assert(self.entries@.last() == entry);
                    assert(map_of(self.entries@) == map_of(s0).insert(path@, entry.model()));
                    assert forall|a: int, b: int|
                        #![trigger self.entries@[a].path, self.entries@[b].path]
                        0 <= a < b < self.entries@.len() implies self.entries@[a].path@
                        != self.entries@[b].path@ by {
                        if b < self.entries@.len() - 1 {
                            assert(self.entries@[a] == s0[a]);
                            assert(self.entries@[b] == s0[b]);
                        } else {
                            assert(self.entries@[a] == s0[a]);
                        }
                    }
                    assert(forall|k: int|
                        0 <= k < self.entries@.len() - 1 ==> (#[trigger] self.entries@[k])
                            == s0[k]);
                }
            },
        }
    }

    /// Removes the entry for `path` if one exists.  A delete of an absent
    /// path is a success that reports the path was not in the index, so
    /// deleting twice in a row both succeed and the second reports
    /// `WasNotInIndex`.
    pub fn delete(&mut self, path: &String) -> (r: DeleteOutcome)
        requires
            old(self).wf(),
        ensures
            final(self).wf(),
            final(self)@ == old(self)@.remove(path@),
            r == DeleteOutcome::Removed <==> old(self)@.contains_key(path@),
    {
        proof {
            lemma_map_of_contains(self.entries@, path@);
        }
        let ghost s0 = self.entries@;
        match self.find(path) {
            Option::Some(i) => {
                proof {
                    lemma_map_of_remove(s0, i as int);
                }
                self.entries.remove(i);
                proof {
                    assert(forall|k: int|
                        0 <= k < self.entries@.len() ==> (#[trigger] self.entries@[k]) == s0.remove(
                            i as int,
                        )[k]);
                }
                DeleteOutcome::Removed
            },
            Option::None => {
                proof {
                    assert(map_of(s0).remove(path@) =~= map_of(s0));
                }
                DeleteOutcome::WasNotInIndex
            },
        }
    }
}

/// Delete is idempotent: removing a path from the store map and removing
/// it again leaves the same map as removing it once, and after the first
/// removal the path is no longer present, so the second delete reports
/// that it was not in the index.
pub proof fn lemma_delete_idempotent(m: Map<Seq<char>, EntryModel>, p: Seq<char>)
    ensures
        m.remove(p).remove(p) == m.remove(p),
        !m.remove(p).contains_key(p),
{
    assert(m.remove(p).remove(p) =~= m.remove(p));
}

/// Upsert is an overwrite, not an accumulation: storing twice under one
/// path leaves exactly the entry of the second store, as if the first had
/// never happened.
pub proof fn lemma_upsert_overwrite(
    m: Map<Seq<char>, EntryModel>,
    p: Seq<char>,
    e1: EntryModel,
    e2: EntryModel,
)
    ensures
        m.insert(p, e1).insert(p, e2) == m.insert(p, e2),
        m.insert(p, e1).insert(p, e2)[p] == e2,
{
    assert(m.insert(p, e1).insert(p, e2) =~= m.insert(p, e2));
}

/// An upsert followed by a delete of the same path leaves no entry for
/// that path, whatever the store held before.
pub proof fn lemma_upsert_then_delete(m: Map<Seq<char>, EntryModel>, p: Seq<char>, e: EntryModel)
    ensures
        m.insert(p, e).remove(p) == m.remove(p),
        !m.insert(p, e).remove(p).contains_key(p),
{
    assert(m.insert(p, e).remove(p) =~= m.remove(p));
}

} // verus!
