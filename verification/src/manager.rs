//! The manager of the open document: the document itself, the file it
//! belongs to, the recent files, the save state and the cache.

use vstd::prelude::*;
use std::sync::Arc;
use mini_moka::sync::Cache;
use crate::cache::{
    cache_capacity, cache_discard, cache_entry_count, cache_get, cache_keys, cache_new, cache_put,
    cache_written, nothing_written, CACHE_CAPACITY, CACHE_IDLE_SECS,
};
use crate::recent::{
    copy_list, lemma_normalized_keeps_wf, lemma_pushed_recent_wf, normalize_recent, normalized,
    push_recent, pushed_recent, recent_wf, texts,
};
use crate::timestamp::{rfc3339_text, Timestamp};
use crate::types::{untitled, ActiveFileState, MindMap, SaveState};

verus! {

/// Holds the open document and what belongs to it. There is always an
/// open document: before any is loaded, a blank one.
pub struct MindMapManager {
    active_mind_map: MindMap,
    current_path: String,
    recent_files: Vec<String>,
    is_saved: bool,
    last_saved_at: Option<Timestamp>,
    cache: Cache<String, Arc<MindMap>>,
}

/// What a manager holds, as plain values.
pub struct ManagerView {
    /// The open document.
    pub active: MindMap,
    /// The file of the open document; empty while it has none.
    pub path: Seq<char>,
    /// The files used recently, most recent first.
    pub recent: Seq<Seq<char>>,
    /// No change was made since the document was last written or loaded.
    pub is_saved: bool,
    /// When the document was last written.
    pub last_saved_at: Option<Timestamp>,
    /// What was written to the cache, by file.
    pub cached: Map<Seq<char>, MindMap>,
    /// The number of documents that the cache is built to keep.
    pub cache_capacity: nat,
}

/// What a session state holds, as plain values.
pub struct SessionView {
    pub path: Option<Seq<char>>,
    pub recent: Seq<Seq<char>>,
}

impl View for ActiveFileState {
    type V = SessionView;

    open spec fn view(&self) -> SessionView {
        SessionView {
            path: match self.current_mind_map_path {
                Some(p) => Some(p@),
                None => None,
            },
            recent: texts(self.recent_files@),
        }
    }
}

impl SessionView {
    /// The file to open first; empty where no document was open.
    pub open spec fn start_path(self) -> Seq<char> {
        match self.path {
            Some(p) => p,
            None => Seq::empty(),
        }
    }
}

impl ManagerView {
    /// The list of recent files is in order, and the cache is built to
    /// keep ten documents.
    pub open spec fn wf(self) -> bool {
        recent_wf(self.recent) && self.cache_capacity == CACHE_CAPACITY
    }

    /// The manager that starts out with `mind_map` and a stored session
    /// state, at `now`: the document counts as saved.
    pub open spec fn loaded(state: SessionView, mind_map: MindMap, now: Timestamp) -> ManagerView {
        ManagerView {
            active: mind_map,
            path: state.start_path(),
            recent: normalized(state.recent),
            is_saved: true,
            last_saved_at: Some(now),
            cached: nothing_written(),
            cache_capacity: CACHE_CAPACITY as nat,
        }
    }

    /// The manager that starts out with `mind_map` and nothing else.
    pub open spec fn initial(mind_map: MindMap) -> ManagerView {
        ManagerView {
            active: mind_map,
            path: Seq::empty(),
            recent: Seq::empty(),
            is_saved: true,
            last_saved_at: None,
            cached: nothing_written(),
            cache_capacity: CACHE_CAPACITY as nat,
        }
    }

    /// The date of a change made at `now`: `now`, unless the clock reads
    /// earlier than the last change, which then keeps its date.
    pub open spec fn change_date(self, now: Timestamp) -> Timestamp {
        now.spec_later(self.active.updated_at)
    }

    /// After the nodes were replaced at `now`.
    pub open spec fn with_nodes(self, nodes: serde_json::Value, now: Timestamp) -> ManagerView {
        ManagerView {
            active: MindMap { nodes: nodes, updated_at: self.change_date(now), ..self.active },
            is_saved: false,
            ..self
        }
    }

    /// After the edges were replaced at `now`.
    pub open spec fn with_edges(self, edges: serde_json::Value, now: Timestamp) -> ManagerView {
        ManagerView {
            active: MindMap { edges: edges, updated_at: self.change_date(now), ..self.active },
            is_saved: false,
            ..self
        }
    }

    /// After `mind_map` became the open document, with `path` as its file.
    pub open spec fn with_active(self, mind_map: MindMap, path: Seq<char>) -> ManagerView {
        ManagerView { active: mind_map, path: path, ..self }
    }

    /// After `path` was used.
    pub open spec fn with_recent(self, path: Seq<char>) -> ManagerView {
        ManagerView { recent: pushed_recent(self.recent, path), ..self }
    }

    /// After a change that is not on disk.
    pub open spec fn unsaved(self) -> ManagerView {
        ManagerView { is_saved: false, ..self }
    }

    /// After a document was taken from disk as it is there.
    pub open spec fn clean(self) -> ManagerView {
        ManagerView { is_saved: true, ..self }
    }

    /// After the document was written at `now`.
    pub open spec fn saved(self, now: Timestamp) -> ManagerView {
        ManagerView { is_saved: true, last_saved_at: Some(now), ..self }
    }

    /// After `mind_map` was written to the cache under `path`.
    pub open spec fn with_cached(self, path: Seq<char>, mind_map: MindMap) -> ManagerView {
        ManagerView { cached: self.cached.insert(path, mind_map), ..self }
    }

    /// After what the cache held under `path` was discarded.
    pub open spec fn without_cached(self, path: Seq<char>) -> ManagerView {
        ManagerView { cached: self.cached.remove(path), ..self }
    }

    /// The session state to store: no path while the document has no file.
    pub open spec fn state(self) -> SessionView {
        SessionView {
            path: if self.path.len() == 0 {
                None
            } else {
                Some(self.path)
            },
            recent: self.recent,
        }
    }

    /// The text of the last write, as `chrono` puts it.
    pub open spec fn last_saved_text(self) -> Option<Seq<char>> {
        match self.last_saved_at {
            Some(at) => rfc3339_text(at.secs as int, at.nanos as int),
            None => None,
        }
    }
}

impl View for MindMapManager {
    type V = ManagerView;

    closed spec fn view(&self) -> ManagerView {
        ManagerView {
            active: self.active_mind_map,
            path: self.current_path@,
            recent: texts(self.recent_files@),
            is_saved: self.is_saved,
            last_saved_at: self.last_saved_at,
            cached: cache_written(self.cache),
            cache_capacity: cache_capacity(self.cache),
        }
    }
}

impl MindMapManager {
    #[verifier::type_invariant]
    spec fn in_order(self) -> bool {
        recent_wf(texts(self.recent_files@)) && cache_capacity(self.cache) == CACHE_CAPACITY
    }

    /// A manager with an untitled blank document, dated `now`.
    pub fn new_at(now: Timestamp) -> (manager: Self)
        ensures
            manager@.active.is_blank(untitled(), "No description"@, now),
            manager@ == ManagerView::initial(manager@.active),
            manager@.wf(),
    {
        let mind_map = MindMap::blank("Untitled".to_owned(), "No description".to_owned(), now);
        let recent_files: Vec<String> = Vec::new();
        proof {
            assert(texts(recent_files@) =~= Seq::<Seq<char>>::empty());
        }
        MindMapManager {
            active_mind_map: mind_map,
            current_path: String::new(),
            recent_files,
            is_saved: true,
            last_saved_at: None,
            cache: cache_new(CACHE_CAPACITY, CACHE_IDLE_SECS),
        }
    }

    /// A manager with an untitled blank document, dated by the system
    /// clock.
    pub fn new() -> (manager: Self)
        ensures
            exists|now: Timestamp| #[trigger]
                manager@.active.is_blank(untitled(), "No description"@, now),
            manager@ == ManagerView::initial(manager@.active),
            manager@.wf(),
    {
        let now = Timestamp::now();
        let manager = Self::new_at(now);
        proof {
            assert(manager@.active.is_blank(untitled(), "No description"@, now));
        }
        manager
    }

    /// A manager that starts out with a document and the stored session
    /// state, at `now`. The stored list of recent files is brought in order.
    pub fn with_loaded_mind_map_at(state: ActiveFileState, mind_map: MindMap, now: Timestamp) -> (manager:
        Self)
        ensures
            manager@ == ManagerView::loaded(state@, mind_map, now),
            manager@.wf(),
            recent_wf(state@.recent) ==> manager@.recent == state@.recent,
    {
        proof {
            if recent_wf(state@.recent) {
                lemma_normalized_keeps_wf(state@.recent);
            }
        }
        let recent_files = normalize_recent(&state.recent_files);
        let current_path = match state.current_mind_map_path {
            Some(path) => path,
            None => String::new(),
        };
        MindMapManager {
            active_mind_map: mind_map,
            current_path,
            recent_files,
            is_saved: true,
            last_saved_at: Some(now),
            cache: cache_new(CACHE_CAPACITY, CACHE_IDLE_SECS),
        }
    }

    /// A manager that starts out with a document and the stored session
    /// state; the document counts as saved at the reading of the system
    /// clock.
    pub fn with_loaded_mind_map(state: ActiveFileState, mind_map: MindMap) -> (manager: Self)
        ensures
            exists|now: Timestamp| #[trigger]
                ManagerView::loaded(state@, mind_map, now) == manager@,
            manager@.wf(),
    {
        let now = Timestamp::now();
        let ghost session = state@;
        let manager = Self::with_loaded_mind_map_at(state, mind_map, now);
        proof {
            assert(ManagerView::loaded(session, mind_map, now) == manager@);
        }
        manager
    }

    /// A copy of the open document.
    pub fn get_active_mind_map(&self) -> (mind_map: MindMap)
        ensures
            mind_map == self@.active,
    {
        self.active_mind_map.clone()
    }

    /// The file of the open document; empty while it has none.
    pub fn get_current_path(&self) -> (path: String)
        ensures
            path@ == self@.path,
    {
        self.current_path.clone()
    }

    /// Replaces the nodes of the open document at `now` and marks it
    /// unsaved. The date of the last change never moves back.
    pub fn update_nodes_at(&mut self, nodes: serde_json::Value, now: Timestamp)
        ensures
            final(self)@ == old(self)@.with_nodes(nodes, now),
            final(self)@.active.updated_at.at_or_after(old(self)@.active.updated_at),
            old(self)@.active.timestamps_ordered() ==> final(self)@.active.timestamps_ordered(),
    {
        proof {
            use_type_invariant(&*self);
        }
        self.active_mind_map.nodes = nodes;
        self.active_mind_map.updated_at = now.later(self.active_mind_map.updated_at);
        self.is_saved = false;
    }

    /// Replaces the nodes of the open document, dated by the system
    /// clock, and marks it unsaved.
    pub fn update_nodes(&mut self, nodes: serde_json::Value)
        ensures
            exists|now: Timestamp| #[trigger] old(self)@.with_nodes(nodes, now) == final(self)@,
            final(self)@.active.updated_at.at_or_after(old(self)@.active.updated_at),
            old(self)@.active.timestamps_ordered() ==> final(self)@.active.timestamps_ordered(),
    {
        let now = Timestamp::now();
        self.update_nodes_at(nodes, now);
        proof {
            assert(old(self)@.with_nodes(nodes, now) == self@);
        }
    }

    /// Replaces the edges of the open document at `now` and marks it
    /// unsaved. The date of the last change never moves back.
    pub fn update_edges_at(&mut self, edges: serde_json::Value, now: Timestamp)
        ensures
            final(self)@ == old(self)@.with_edges(edges, now),
            final(self)@.active.updated_at.at_or_after(old(self)@.active.updated_at),
            old(self)@.active.timestamps_ordered() ==> final(self)@.active.timestamps_ordered(),
    {
        proof {
            use_type_invariant(&*self);
        }
        self.active_mind_map.edges = edges;
        self.active_mind_map.updated_at = now.later(self.active_mind_map.updated_at);
        self.is_saved = false;
    }

    /// Replaces the edges of the open document, dated by the system
    /// clock, and marks it unsaved.
    pub fn update_edges(&mut self, edges: serde_json::Value)
        ensures
            exists|now: Timestamp| #[trigger] old(self)@.with_edges(edges, now) == final(self)@,
            final(self)@.active.updated_at.at_or_after(old(self)@.active.updated_at),
            old(self)@.active.timestamps_ordered() ==> final(self)@.active.timestamps_ordered(),
    {
        let now = Timestamp::now();
        self.update_edges_at(edges, now);
        proof {
            assert(old(self)@.with_edges(edges, now) == self@);
        }
    }

    /// Makes `mind_map` the open document and `path` its file. Nothing of
    /// the document that was open stays.
    pub fn set_active_mind_map(&mut self, mind_map: MindMap, path: String)
        ensures
            final(self)@ == old(self)@.with_active(mind_map, path@),
    {
        proof {
            use_type_invariant(&*self);
        }
        self.active_mind_map = mind_map;
        self.current_path = path;
    }

    /// The files used recently, most recent first: at most ten, none twice.
    pub fn get_recent_files(&self) -> (list: Vec<String>)
        ensures
            texts(list@) == self@.recent,
            self@.wf(),
    {
        proof {
            use_type_invariant(self);
        }
        copy_list(&self.recent_files)
    }

    /// Records that `path` was used: it moves to the front of the recent
    /// files, or enters there.
    pub fn add_recent_file(&mut self, path: String)
        ensures
            final(self)@ == old(self)@.with_recent(path@),
            final(self)@.wf(),
            final(self)@.recent.len() >= 1,
            final(self)@.recent[0] == path@,
            old(self)@.recent.contains(path@) ==> final(self)@.recent.len() == old(
                self,
            )@.recent.len(),
    {
        proof {
            use_type_invariant(&*self);
            lemma_pushed_recent_wf(texts(self.recent_files@), path@);
        }
        let mut list = copy_list(&self.recent_files);
        proof {
            assert(texts(list@) == texts(self.recent_files@));
        }
        push_recent(&mut list, path);
        self.recent_files = list;
    }

    /// The session state to store.
    pub fn get_state(&self) -> (state: ActiveFileState)
        ensures
            state@ == self@.state(),
            recent_wf(state@.recent),
            self@.wf(),
    {
        proof {
            use_type_invariant(self);
        }
        let current_mind_map_path = if self.current_path.as_str().is_empty() {
            None
        } else {
            Some(self.current_path.clone())
        };
        ActiveFileState { current_mind_map_path, recent_files: copy_list(&self.recent_files) }
    }

    /// Marks the open document as changed since it was last written.
    pub fn mark_unsaved(&mut self)
        ensures
            final(self)@ == old(self)@.unsaved(),
    {
        proof {
            use_type_invariant(&*self);
        }
        self.is_saved = false;
    }

    /// Marks the open document as being on disk as it is in memory,
    /// without a new date of writing.
    pub fn mark_clean(&mut self)
        ensures
            final(self)@ == old(self)@.clean(),
    {
        proof {
            use_type_invariant(&*self);
        }
        self.is_saved = true;
    }

    /// Marks the open document as written at `now`.
    pub fn mark_saved_at(&mut self, now: Timestamp)
        ensures
            final(self)@ == old(self)@.saved(now),
    {
        proof {
            use_type_invariant(&*self);
        }
        self.is_saved = true;
        self.last_saved_at = Some(now);
    }

    /// Marks the open document as written at the reading of the system
    /// clock.
    pub fn mark_saved(&mut self)
        ensures
            exists|now: Timestamp| #[trigger] old(self)@.saved(now) == final(self)@,
    {
        let now = Timestamp::now();
        self.mark_saved_at(now);
        proof {
            assert(old(self)@.saved(now) == self@);
        }
    }

    /// No change was made since the document was last written or loaded.
    pub fn is_saved(&self) -> (saved: bool)
        ensures
            saved == self@.is_saved,
    {
        self.is_saved
    }

    /// When the document was last written.
    pub fn get_last_saved_at(&self) -> (at: Option<Timestamp>)
        ensures
            at == self@.last_saved_at,
    {
        self.last_saved_at
    }

    /// The save state as callers are shown it. Reads only. The date of
    /// the last write is shown where it has a text, which every date in
    /// the years 1970 to 9999 and every reading of the clock has.
    pub fn get_save_state(&self) -> (state: SaveState)
        ensures
            state.is_saved == self@.is_saved,
            match state.last_saved_at {
                Some(text) => self@.last_saved_text() == Some(text@),
                None => self@.last_saved_text().is_none(),
            },
            self@.last_saved_at.is_some() && self@.last_saved_at.unwrap().in_text_range()
                ==> state.last_saved_at.is_some(),
    {
        let last_saved_at = match self.last_saved_at {
            Some(at) => at.to_rfc3339(),
            None => None,
        };
        SaveState { is_saved: self.is_saved, last_saved_at }
    }

    /// Writes a document to the cache under its file.
    pub fn update_cache(&mut self, path: String, mind_map: MindMap)
        ensures
            final(self)@ == old(self)@.with_cached(path@, mind_map),
    {
        proof {
            use_type_invariant(&*self);
        }
        cache_put(&mut self.cache, path, mind_map);
    }

    /// Looks a file up in the cache. A miss is possible whatever was
    /// written; a hit is the document last written under the file.
    pub fn cached_mind_map(&self, path: &String) -> (found: Option<MindMap>)
        ensures
            match found {
                Some(mind_map) => self@.cached.contains_key(path@) && self@.cached[path@]
                    == mind_map,
                None => true,
            },
    {
        match cache_get(&self.cache, path) {
            Some(shared) => Some((*shared).clone()),
            None => None,
        }
    }

    /// Discards what the cache holds under a file.
    pub fn invalidate_cached(&mut self, path: &String)
        ensures
            final(self)@ == old(self)@.without_cached(path@),
    {
        proof {
            use_type_invariant(&*self);
        }
        cache_discard(&mut self.cache, path);
    }

    /// The files that the cache holds a document for, in no order and
    /// each once. A file that was written may be missing, as a lookup may
    /// miss; no file is listed that nothing was written under.
    pub fn cached_paths(&self) -> (paths: Vec<String>)
        ensures
            forall|i: int| 0 <= i < paths@.len() ==> self@.cached.contains_key(#[trigger] paths@[i]@),
            texts(paths@).no_duplicates(),
    {
        cache_keys(&self.cache)
    }

    /// An estimate of the number of documents in the cache.
    pub fn cache_entry_count(&self) -> u64 {
        cache_entry_count(&self.cache)
    }
}

} // verus!
