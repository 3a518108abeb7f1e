//! The process-wide registry: for every slug the loaded document, the
//! clients that are present, and the operation ids seen of late.

use vstd::prelude::*;
use vstd::hash_map::StringHashMap;
use std::collections::HashMap;
use crate::document::{Doc, DocView};
use crate::recent::{RecentOps, RECENT_OPS_CAP};
use crate::types::{PresenceState, PresenceView};

verus! {

/// Calls `SystemTime::now` and returns the milliseconds since the Unix
/// epoch; zero where the clock stands before it. Nothing is known of the
/// result.
#[verifier::external_body]
pub fn now_millis() -> u64 {
    std::time::SystemTime::now()
        .duration_since(std::time::UNIX_EPOCH)
        .unwrap_or_else(|_| std::time::Duration::from_secs(0))
        .as_millis() as u64
}

/// The clients that are connected to one document.
pub struct DocPresence {
    pub clients: HashMap<u128, PresenceState>,
}

impl DeepView for DocPresence {
    type V = Map<u128, PresenceView>;

    open spec fn deep_view(&self) -> Map<u128, PresenceView> {
        self.clients@.map_values(|p: PresenceState| p.deep_view())
    }
}

/// All that the registry holds for one slug.
struct SlugState {
    slug: String,
    doc: Option<Doc>,
    presence: Option<DocPresence>,
    recent: Option<RecentOps>,
}

/// What the process holds for every slug it has met.
pub struct Registry {
    index: StringHashMap<usize>,
    slots: Vec<SlugState>,
}

/// The registry together with the settings of the process.
pub struct AppState {
    pub registry: Registry,
    pub wal_dir: String,
    pub snap_dir: String,
    pub flush_idle_ms: u64,
    pub flush_max_ops: usize,
    pub app_env_dev: bool,
    pub allowed_origins: Vec<String>,
}

/// The registry as three maps from slug.
pub struct RegistryView {
    /// The loaded documents.
    pub docs: Map<Seq<char>, DocView>,
    /// For each slug that has a presence bucket, its clients by id.
    pub presence: Map<Seq<char>, Map<u128, PresenceView>>,
    /// For each slug that has a memory of operation ids, the ids, oldest
    /// first.
    pub recent: Map<Seq<char>, Seq<u128>>,
}

impl View for AppState {
    type V = RegistryView;

    open spec fn view(&self) -> RegistryView {
        self.registry@
    }
}

impl View for Registry {
    type V = RegistryView;

    closed spec fn view(&self) -> RegistryView {
        RegistryView {
            docs: Map::new(
                |k: Seq<char>| self.index@.contains_key(k) && self.at(k).doc is Some,
                |k: Seq<char>| self.at(k).doc->0.deep_view(),
            ),
            presence: Map::new(
                |k: Seq<char>| self.index@.contains_key(k) && self.at(k).presence is Some,
                |k: Seq<char>| self.at(k).presence->0.deep_view(),
            ),
            recent: Map::new(
                |k: Seq<char>| self.index@.contains_key(k) && self.at(k).recent is Some,
                |k: Seq<char>| self.at(k).recent->0@,
            ),
        }
    }
}

/// The settings of the process are the same in both states.
pub open spec fn same_settings(before: AppState, after: AppState) -> bool {
    &&& after.wal_dir == before.wal_dir
    &&& after.snap_dir == before.snap_dir
    &&& after.flush_idle_ms == before.flush_idle_ms
    &&& after.flush_max_ops == before.flush_max_ops
    &&& after.app_env_dev == before.app_env_dev
    &&& after.allowed_origins == before.allowed_origins
}

impl AppState {
    /// The registry is consistent.
    pub open spec fn wf(&self) -> bool {
        self.registry.wf()
    }

    /// An empty registry with the given settings.
    pub fn new(
        wal_dir: String,
        snap_dir: String,
        flush_idle_ms: u64,
        flush_max_ops: usize,
        app_env_dev: bool,
        allowed_origins: Vec<String>,
    ) -> (res: Self)
        ensures
            res.wf(),
            res@.docs == Map::<Seq<char>, DocView>::empty(),
            res@.presence == Map::<Seq<char>, Map<u128, PresenceView>>::empty(),
            res@.recent == Map::<Seq<char>, Seq<u128>>::empty(),
            res.wal_dir == wal_dir,
            res.snap_dir == snap_dir,
            res.flush_idle_ms == flush_idle_ms,
            res.flush_max_ops == flush_max_ops,
            res.app_env_dev == app_env_dev,
            res.allowed_origins == allowed_origins,
    {
        AppState {
            registry: Registry::new(),
            wal_dir,
            snap_dir,
            flush_idle_ms,
            flush_max_ops,
            app_env_dev,
            allowed_origins,
        }
    }

    /// Puts `doc` in as the document of `slug`, in place of the one that
    /// was there, and says whether it did. A document whose log does not
    /// hold one entry per revision, or of which more edits wait to be
    /// written out than it has revisions, is not taken.
    pub fn insert_doc(&mut self, slug: &str, doc: Doc) -> (res: bool)
        requires
            old(self).wf(),
        ensures
            final(self).wf(),
            same_settings(*old(self), *final(self)),
            res == doc.wf(),
            final(self)@.presence == old(self)@.presence,
            final(self)@.recent == old(self)@.recent,
            final(self)@.docs == (if res {
                old(self)@.docs.insert(slug@, doc.deep_view())
            } else {
                old(self)@.docs
            }),
    {
        let held: usize = doc.log.len();
        if held as u64 == doc.rev && doc.since_flush as u64 <= doc.rev {
            self.registry.put_doc(slug, doc);
            true
        } else {
            false
        }
    }
}

impl Registry {
    /// What is held for the slug `k`.
    spec fn at(&self, k: Seq<char>) -> SlugState {
        self.slots[self.index@[k] as int]
    }

    /// The registry is consistent: every loaded document has one log entry
    /// per revision, and every memory of operation ids is within its bound.
    pub closed spec fn wf(&self) -> bool {
        &&& forall|k: Seq<char>| #[trigger]
            self.index@.contains_key(k) ==> self.index@[k] < self.slots.len() && self.at(k).slug@
                == k
        &&& forall|i: int|
            0 <= i < self.slots.len() ==> self.index@.contains_key((#[trigger] self.slots[i]).slug@)
                && self.index@[self.slots[i].slug@] == i
        &&& forall|i: int|
            0 <= i < self.slots.len() ==> ((#[trigger] self.slots[i]).doc matches Some(d)
                ==> d.wf())
        &&& forall|i: int|
            0 <= i < self.slots.len() ==> ((#[trigger] self.slots[i]).recent matches Some(r)
                ==> r.wf() && r.capacity() == RECENT_OPS_CAP)
    }

    /// The registry that has met no slug.
    pub fn new() -> (res: Self)
        ensures
            res.wf(),
            res@.docs == Map::<Seq<char>, DocView>::empty(),
            res@.presence == Map::<Seq<char>, Map<u128, PresenceView>>::empty(),
            res@.recent == Map::<Seq<char>, Seq<u128>>::empty(),
    {
        let res = Registry { index: StringHashMap::new(), slots: Vec::new() };
        res
    }

    /// Where the slot of `slug` is, if it has one.
    fn find(&self, slug: &str) -> (res: Option<usize>)
        requires
            self.wf(),
        ensures
            res is Some <==> self.index@.contains_key(slug@),
            res matches Some(i) ==> i == self.index@[slug@] && i < self.slots.len(),
    {
        match self.index.get(slug) {
            Some(i) => Some(*i),
            None => None,
        }
    }

    /// The slot of `slug`, made empty where there was none.
    fn slot(&mut self, slug: &str) -> (i: usize)
        requires
            old(self).wf(),
        ensures
            final(self).wf(),
            final(self)@ == old(self)@,
            final(self).index@.contains_key(slug@),
            i == final(self).index@[slug@],
            i < final(self).slots.len(),
    {
        match self.find(slug) {
            Some(i) => i,
            None => {
                let i = self.slots.len();
                self.slots.push(
                    SlugState { slug: slug.to_owned(), doc: None, presence: None, recent: None },
                );
                self.index.insert(slug.to_owned(), i);
                proof {
                    assert(self@.docs =~= old(self)@.docs);
                    assert(self@.presence =~= old(self)@.presence);
                    assert(self@.recent =~= old(self)@.recent);
                }
                i
            },
        }
    }

    /// Whether a document is loaded for `slug`.
    pub fn has_doc(&self, slug: &str) -> (res: bool)
        requires
            self.wf(),
        ensures
            res == self@.docs.contains_key(slug@),
    {
        match self.find(slug) {
            Some(i) => self.slots[i].doc.is_some(),
            None => false,
        }
    }

    /// The document that is loaded for `slug`.
    pub fn doc(&self, slug: &str) -> (res: Option<&Doc>)
        requires
            self.wf(),
        ensures
            res is Some <==> self@.docs.contains_key(slug@),
            res matches Some(d) ==> d.deep_view() == self@.docs[slug@] && d.wf(),
    {
        match self.find(slug) {
            Some(i) => self.slots[i].doc.as_ref(),
            None => None,
        }
    }

    /// Takes the document of `slug` out of the registry.
    pub fn take_doc(&mut self, slug: &str) -> (res: Option<Doc>)
        requires
            old(self).wf(),
        ensures
            final(self).wf(),
            res is Some <==> old(self)@.docs.contains_key(slug@),
            res matches Some(d) ==> d.deep_view() == old(self)@.docs[slug@] && d.wf(),
            final(self)@.docs == old(self)@.docs.remove(slug@),
            final(self)@.presence == old(self)@.presence,
            final(self)@.recent == old(self)@.recent,
    {
        let res = match self.find(slug) {
            Some(i) => {
                let taken = self.slots[i].doc.take();
                proof {
                    self.lemma_slot_changed(*old(self), i as int);
                }
                taken
            },
            None => None,
        };
        res
    }

    /// Puts `doc` in as the document of `slug`, in place of the one that was
    /// there.
    pub fn put_doc(&mut self, slug: &str, doc: Doc)
        requires
            old(self).wf(),
            doc.wf(),
        ensures
            final(self).wf(),
            final(self)@.docs == old(self)@.docs.insert(slug@, doc.deep_view()),
            final(self)@.presence == old(self)@.presence,
            final(self)@.recent == old(self)@.recent,
    {
        let i = self.slot(slug);
        let ghost before = *self;
        self.slots[i].doc = Some(doc);
        proof {
            self.lemma_slot_changed(before, i as int);
        }
    }

    /// Takes the presence bucket of `slug` out of the registry.
    pub fn take_presence(&mut self, slug: &str) -> (res: Option<DocPresence>)
        requires
            old(self).wf(),
        ensures
            final(self).wf(),
            res is Some <==> old(self)@.presence.contains_key(slug@),
            res matches Some(p) ==> p.deep_view() == old(self)@.presence[slug@],
            final(self)@.docs == old(self)@.docs,
            final(self)@.presence == old(self)@.presence.remove(slug@),
            final(self)@.recent == old(self)@.recent,
    {
        let res = match self.find(slug) {
            Some(i) => {
                let taken = self.slots[i].presence.take();
                proof {
                    self.lemma_slot_changed(*old(self), i as int);
                }
                taken
            },
            None => None,
        };
        res
    }

    /// Puts `presence` in as the presence bucket of `slug`.
    pub fn put_presence(&mut self, slug: &str, presence: DocPresence)
        requires
            old(self).wf(),
        ensures
            final(self).wf(),
            final(self)@.docs == old(self)@.docs,
            final(self)@.presence == old(self)@.presence.insert(slug@, presence.deep_view()),
            final(self)@.recent == old(self)@.recent,
    {
        let i = self.slot(slug);
        let ghost before = *self;
        self.slots[i].presence = Some(presence);
        proof {
            self.lemma_slot_changed(before, i as int);
        }
    }

    /// Takes the memory of operation ids of `slug` out of the registry.
    pub fn take_recent(&mut self, slug: &str) -> (res: Option<RecentOps>)
        requires
            old(self).wf(),
        ensures
            final(self).wf(),
            res is Some <==> old(self)@.recent.contains_key(slug@),
            res matches Some(r) ==> r@ == old(self)@.recent[slug@] && r.wf() && r.capacity()
                == RECENT_OPS_CAP,
            final(self)@.docs == old(self)@.docs,
            final(self)@.presence == old(self)@.presence,
            final(self)@.recent == old(self)@.recent.remove(slug@),
    {
        let res = match self.find(slug) {
            Some(i) => {
                let taken = self.slots[i].recent.take();
                proof {
                    self.lemma_slot_changed(*old(self), i as int);
                }
                taken
            },
            None => None,
        };
        res
    }

    /// Puts `recent` in as the memory of operation ids of `slug`.
    pub fn put_recent(&mut self, slug: &str, recent: RecentOps)
        requires
            old(self).wf(),
            recent.wf(),
            recent.capacity() == RECENT_OPS_CAP,
        ensures
            final(self).wf(),
            final(self)@.docs == old(self)@.docs,
            final(self)@.presence == old(self)@.presence,
            final(self)@.recent == old(self)@.recent.insert(slug@, recent@),
    {
        let i = self.slot(slug);
        let ghost before = *self;
        self.slots[i].recent = Some(recent);
        proof {
            self.lemma_slot_changed(before, i as int);
        }
    }

    /// Whether the registry remembers `id` for `slug`.
    pub fn recent_contains(&self, slug: &str, id: &u128) -> (res: bool)
        requires
            self.wf(),
        ensures
            res == (self@.recent.contains_key(slug@) && self@.recent[slug@].contains(*id)),
    {
        match self.find(slug) {
            Some(i) => match &self.slots[i].recent {
                Some(r) => r.contains(id),
                None => false,
            },
            None => false,
        }
    }

    /// Whether `slug` has a presence bucket.
    pub fn has_presence(&self, slug: &str) -> (res: bool)
        requires
            self.wf(),
        ensures
            res == self@.presence.contains_key(slug@),
    {
        match self.find(slug) {
            Some(i) => self.slots[i].presence.is_some(),
            None => false,
        }
    }

    /// The presence bucket of `slug`.
    pub fn presence(&self, slug: &str) -> (res: Option<&DocPresence>)
        requires
            self.wf(),
        ensures
            res is Some <==> self@.presence.contains_key(slug@),
            res matches Some(p) ==> p.deep_view() == self@.presence[slug@],
    {
        match self.find(slug) {
            Some(i) => self.slots[i].presence.as_ref(),
            None => None,
        }
    }

    /// The slugs that have a loaded document, each once.
    pub fn loaded_slugs(&self) -> (res: Vec<String>)
        requires
            self.wf(),
        ensures
            forall|k: Seq<char>| self@.docs.contains_key(k) <==> res.deep_view().contains(k),
            res.deep_view().no_duplicates(),
    {
        let mut out: Vec<String> = Vec::new();
        let mut i: usize = 0;
        while i < self.slots.len()
            invariant
                i <= self.slots.len(),
                self.wf(),
                forall|j: int|
                    0 <= j < out.len() ==> self@.docs.contains_key(#[trigger] out[j]@),
                forall|j: int|
                    0 <= j < out.len() ==> self.index@[(#[trigger] out[j])@] < i,
                forall|a: int, b: int|
                    0 <= a < b < out.len() ==> (#[trigger] out[a])@ != (#[trigger] out[b])@,
                forall|j: int|
                    0 <= j < i && (#[trigger] self.slots[j]).doc is Some
                        ==> out.deep_view().contains(self.slots[j].slug@),
            decreases self.slots.len() - i,
        {
            if self.slots[i].doc.is_some() {
                let ghost before = out.deep_view();
                out.push(self.slots[i].slug.clone());
                proof {
                    let slug = self.slots[i as int].slug@;
                    assert forall|j: int|
                        0 <= j <= i && (#[trigger] self.slots[j]).doc is Some
                        implies out.deep_view().contains(self.slots[j].slug@) by {
                        if j < i {
                            let at = choose|at: int|
                                0 <= at < before.len() && before[at] == self.slots[j].slug@;
                            assert(out.deep_view()[at] == self.slots[j].slug@);
                        } else {
                            assert(out.deep_view()[out.len() - 1] == slug);
                        }
                    }
                }
            }
            i += 1;
        }
        out
    }

    /// Of no slug more than 4096 operation ids are remembered, and none
    /// twice.
    pub proof fn lemma_recent_within_capacity(&self, slug: Seq<char>)
        requires
            self.wf(),
            self@.recent.contains_key(slug),
        ensures
            self@.recent[slug].len() <= RECENT_OPS_CAP,
            self@.recent[slug].no_duplicates(),
    {
        let r = self.at(slug).recent->0;
        r.lemma_within_capacity();
    }

    /// After a change to what the slot `i` holds, with its slug kept, every
    /// other slot and the index are as before.
    proof fn lemma_slot_changed(&self, before: Registry, i: int)
        requires
            before.wf(),
            0 <= i < before.slots.len(),
            self.index == before.index,
            self.slots.len() == before.slots.len(),
            self.slots[i].slug == before.slots[i].slug,
            forall|j: int| 0 <= j < self.slots.len() && j != i ==> self.slots[j] == before.slots[j],
            self.slots[i].doc matches Some(d) ==> d.wf(),
            self.slots[i].recent matches Some(r) ==> r.wf() && r.capacity() == RECENT_OPS_CAP,
        ensures
            self.wf(),
            forall|k: Seq<char>|
                before.index@.contains_key(k) && k != before.slots[i].slug@ ==> #[trigger] self.at(
                    k,
                ) == before.at(k),
            self.index@.contains_key(before.slots[i].slug@),
            self.at(before.slots[i].slug@) == self.slots[i],
    {
    }
}

} // verus!
